//! The single error category of the store layer.

use vstd::prelude::*;

verus! {

/// Wraps every store-layer failure (connectivity, constraint violation,
/// malformed row). Absence of a record is never an error: it is an empty
/// optional result.
#[derive(Debug)]
pub struct StoreError {
    pub message: String,
}

impl StoreError {
    pub fn new(message: String) -> (r: Self)
        ensures
            r.message == message,
    {
        StoreError { message }
    }

    /// The human-readable description carried by the error.
    pub fn message(&self) -> (r: &String)
        ensures
            r == &self.message,
    {
        &self.message
    }
}

} // verus!
