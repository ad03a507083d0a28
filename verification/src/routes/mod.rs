//! How the HTTP routes answer: the defaults of their parameters and the
//! reply to a failed request.
use vstd::prelude::*;

use crate::embedding::retry_after_spec;
use crate::text::{decimal, lemma_parse_decimal, u64_to_decimal};

pub mod index;
pub mod search;

verus! {

/// How a failed request is answered.
#[derive(Clone, Copy, Debug, PartialEq, Eq, Structural)]
pub enum ErrorReply {
    /// `429 Too Many Requests`, with a `Retry-After` of this many seconds.
    RetryLater(u64),
    /// An internal error, described by the error's debug text.
    Failure,
}

/// The message of a `429` reply.
pub open spec fn retry_later_message_spec() -> Seq<char> {
    "Please try again later!"@
}

pub fn retry_later_message() -> (m: String)
    ensures
        m@ == retry_later_message_spec(),
{
    String::from_str("Please try again later!")
}

/// The `Retry-After` header value: the delay in seconds.
pub fn retry_after_header(secs: u64) -> (h: String)
    ensures
        h@ == decimal(secs as nat),
{
    u64_to_decimal(secs)
}

/// The message of an internal error reply.
pub open spec fn failure_message_spec(description: Seq<char>) -> Seq<char> {
    "An error occured: "@ + description
}

pub fn failure_message(description: &str) -> (m: String)
    ensures
        m@ == failure_message_spec(description@),
{
    let mut m = String::from_str("An error occured: ");
    m.append(description);
    m
}

/// The `Retry-After` header of a `429` reply, read the way the embedding
/// provider's header is read, gives back the delay it was written with.
pub proof fn lemma_retry_after_round_trip(secs: u64)
    ensures
        retry_after_spec(Some(decimal(secs as nat))) == secs,
{
    lemma_parse_decimal(secs);
}

} // verus!
