//! Descriptions drawn from the payloads of panics that occur while a
//! transaction executes.
use vstd::prelude::*;

use crate::error::{opt_chars, TransactionError, TransactionErrorType, TransactionErrorView};

verus! {

/// The payload of a panic, by the kinds of value that a description can be
/// drawn from.
pub enum PanicPayload {
    /// The panic carried a static string slice (`&str`).
    Str(String),
    /// The panic carried an owned `String`.
    Owned(String),
    /// The panic carried a boxed `Error + Send`; this holds the error's
    /// description.
    Error(String),
    /// The panic carried a value of any other type.
    Other,
}

/// The characters of the description that a panic payload yields, if any.
pub open spec fn payload_description(payload: PanicPayload) -> Option<Seq<char>> {
    match payload {
        PanicPayload::Str(s) => Some(s@),
        PanicPayload::Owned(s) => Some(s@),
        PanicPayload::Error(d) => Some(d@),
        PanicPayload::Other => None,
    }
}

/// Tries to get a meaningful description from the given panic: its message
/// when it carried a string, the error's description when it carried an error,
/// and nothing otherwise.
pub fn panic_description(payload: &PanicPayload) -> (d: Option<String>)
    ensures
        opt_chars(d) == payload_description(*payload),
        *payload matches PanicPayload::Str(s) ==> (d matches Some(t) && t@ == s@),
        *payload matches PanicPayload::Owned(s) ==> (d matches Some(t) && t@ == s@),
        *payload matches PanicPayload::Error(e) ==> (d matches Some(t) && t@ == e@),
        *payload is Other ==> d is None,
{
    match payload {
        PanicPayload::Str(s) => Some(s.clone()),
        PanicPayload::Owned(s) => Some(s.clone()),
        PanicPayload::Error(d) => Some(d.clone()),
        PanicPayload::Other => None,
    }
}

impl TransactionError {
    /// Creates a new `TransactionError` of type `Panic` from the payload of a
    /// panic, with the description that the payload yields.
    pub fn from_panic(payload: &PanicPayload) -> (e: Self)
        ensures
            e@ == (TransactionErrorView {
                error_type: TransactionErrorType::Panic,
                description: payload_description(*payload),
            }),
    {
        Self::panic(panic_description(payload))
    }
}

/// A payload that carries a string yields the whole string as its description,
/// whatever its length; an error yields its description, and any other payload
/// none.
pub proof fn lemma_payload_description(payload: PanicPayload)
    ensures
        payload matches PanicPayload::Str(s) ==> payload_description(payload) == Some(s@),
        payload matches PanicPayload::Owned(s) ==> payload_description(payload) == Some(s@),
        payload matches PanicPayload::Error(e) ==> payload_description(payload) == Some(e@),
        payload is Other ==> payload_description(payload) is None,
{
}

} // verus!
