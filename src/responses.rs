//! Error kinds, their HTTP statuses, and the bodies sent back to a client.
use vstd::prelude::*;

verus! {

/// What went wrong with a request.
#[derive(PartialEq, Eq, Structural, Clone, Copy, Debug)]
pub enum ErrorKind {
    /// A malformed request body or path parameter.
    Validation,
    /// No row carries the requested id.
    NotFound,
    /// Any other failure reported by the store.
    Store,
}

/// The HTTP status that each error kind is answered with.
pub open spec fn kind_status(k: ErrorKind) -> u16 {
    match k {
        ErrorKind::Validation => 400,
        ErrorKind::NotFound => 404,
        ErrorKind::Store => 500,
    }
}

/// An error of a request, with a message for the client.
#[derive(Clone, Debug, PartialEq, Eq)]
pub struct ApiError {
    pub kind: ErrorKind,
    pub message: String,
}

impl ApiError {
    /// The error reported by the store: `NotFound` when the store found no
    /// row, `Store` otherwise; the store's message is kept.
    pub fn from_store(row_not_found: bool, message: String) -> (r: ApiError)
        ensures
            r.kind == (if row_not_found {
                ErrorKind::NotFound
            } else {
                ErrorKind::Store
            }),
            r.message@ == message@,
    {
        let kind = if row_not_found {
            ErrorKind::NotFound
        } else {
            ErrorKind::Store
        };
        ApiError { kind, message }
    }

    /// A malformed request.
    pub fn validation(message: String) -> (r: ApiError)
        ensures
            r.kind == ErrorKind::Validation,
            r.message@ == message@,
    {
        ApiError { kind: ErrorKind::Validation, message }
    }

    /// The HTTP status of this error.
    pub fn status(&self) -> (r: u16)
        ensures
            r == kind_status(self.kind),
    {
        match self.kind {
            ErrorKind::Validation => 400,
            ErrorKind::NotFound => 404,
            ErrorKind::Store => 500,
        }
    }
}

/// The body of every error response: `{ "message": ... }`.
#[derive(Clone, Debug, PartialEq, Eq)]
pub struct CustomError {
    pub message: String,
}

impl CustomError {
    /// The envelope of an error, carrying its message.
    pub fn new(e: ApiError) -> (r: CustomError)
        ensures
            r.message@ == e.message@,
    {
        CustomError { message: e.message }
    }
}

/// The body of a successful create: the id the store assigned.
#[derive(Clone, Copy, Debug, PartialEq, Eq)]
pub struct CreateResponse {
    pub id: i64,
}

} // verus!
