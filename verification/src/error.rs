use vstd::prelude::*;

verus! {

/// What can go wrong while a request is served.
#[derive(Clone, Copy, Debug, PartialEq, Eq, Structural)]
pub enum StoreError {
    /// A record with the given id is already stored.
    DuplicateKey,
    /// No record with the given id is stored.
    NotFound,
    /// More than one record answers to one id.
    AmbiguousResult,
    /// The store could not be reached, or gave no connection in time.
    StoreUnavailable,
    /// A required query parameter is missing or does not parse.
    MalformedInput,
}

impl StoreError {
    /// The HTTP status that reports this error.
    pub open spec fn status(self) -> u16 {
        match self {
            StoreError::DuplicateKey => 409,
            StoreError::NotFound => 404,
            StoreError::AmbiguousResult => 500,
            StoreError::StoreUnavailable => 503,
            StoreError::MalformedInput => 400,
        }
    }

    /// The HTTP status that reports this error.
    pub fn status_code(&self) -> (code: u16)
        ensures
            code == self.status(),
    {
        match self {
            StoreError::DuplicateKey => 409,
            StoreError::NotFound => 404,
            StoreError::AmbiguousResult => 500,
            StoreError::StoreUnavailable => 503,
            StoreError::MalformedInput => 400,
        }
    }
}

} // verus!
