//! The route that indexes a media link.
use vstd::prelude::*;

use crate::embedding::EmbeddingError;
use crate::media::IndexError;
use crate::routes::ErrorReply;

verus! {

/// The time limit in seconds of each embedding, when the request names none.
pub fn default_timeout() -> (secs: u64)
    ensures
        secs == 10,
{
    10
}

/// A rate limit of the embedding provider is answered with `429` and its
/// delay; any other error is an internal error.
pub fn index_error_reply(e: &IndexError) -> (reply: ErrorReply)
    ensures
        match e {
            IndexError::Embedding(EmbeddingError::Ratelimit(secs)) => reply == ErrorReply::RetryLater(*secs),
            _ => reply == ErrorReply::Failure,
        },
{
    match e {
        IndexError::Embedding(EmbeddingError::Ratelimit(secs)) => ErrorReply::RetryLater(*secs),
        _ => ErrorReply::Failure,
    }
}

} // verus!
