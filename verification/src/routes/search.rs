//! The route that searches the media of a user.
use vstd::prelude::*;

use crate::embedding::EmbeddingError;
use crate::media::SearchError;
use crate::routes::ErrorReply;

verus! {

/// The number of hits per embedder, when the request names none.
pub fn default_amount() -> (amount: u64)
    ensures
        amount == 100,
{
    100
}

/// The time limit in seconds of each embedding, when the request names none.
pub fn default_timeout() -> (secs: u64)
    ensures
        secs == 10,
{
    10
}

/// A rate limit of the embedding provider is answered with `429` and its
/// delay; any other error is an internal error.
pub fn search_error_reply(e: &SearchError) -> (reply: ErrorReply)
    ensures
        match e {
            SearchError::Embedding(EmbeddingError::Ratelimit(secs)) => reply == ErrorReply::RetryLater(*secs),
            _ => reply == ErrorReply::Failure,
        },
{
    match e {
        SearchError::Embedding(EmbeddingError::Ratelimit(secs)) => ErrorReply::RetryLater(*secs),
        _ => ErrorReply::Failure,
    }
}

} // verus!
