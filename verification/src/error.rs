//! The two ways a lookup fails.

use vstd::prelude::*;
use vstd::string::*;

verus! {

/// Why a lookup gave no mapping. `E` is the storage layer's own error.
#[derive(Debug, Clone, PartialEq)]
pub enum LookupError<E> {
    /// The named collection could not be resolved. `what` says what was looked for.
    NotFound { what: String },
    /// The retrieval failed; the cause is handed on as it came.
    RetrievalFailed(E),
}

/// What a `NotFound` says was looked for, given the collection's name.
pub open spec fn missing_collection(collection_name: Seq<char>) -> Seq<char> {
    "Collection "@ + collection_name
}

impl<E> LookupError<E> {
    /// The error for a collection that could not be resolved.
    pub fn collection_not_found(collection_name: &str) -> (r: LookupError<E>)
        ensures
            r matches LookupError::NotFound { what } && what@ == missing_collection(
                collection_name@,
            ),
    {
        LookupError::NotFound { what: String::from_str("Collection ").concat(collection_name) }
    }

    /// The text of a `NotFound`: what was looked for, then " not found". A failed retrieval
    /// has no text of its own: its cause speaks for it.
    pub fn not_found_message(&self) -> (r: Option<String>)
        ensures
            match self {
                LookupError::NotFound { what } => r matches Some(text) && text@ == what@
                    + " not found"@,
                LookupError::RetrievalFailed(_) => r is None,
            },
    {
        match self {
            LookupError::NotFound { what } => Some(what.clone().concat(" not found")),
            LookupError::RetrievalFailed(_) => None,
        }
    }
}

} // verus!
