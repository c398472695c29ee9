//! What can go wrong while a request is served.

use vstd::prelude::*;

verus! {

/// Any failure of the underlying store: lost connection, violated
/// constraint, failed query. It is answered to the client as a server error
/// together with its detail, and never retried.
#[derive(Debug, PartialEq, Eq)]
pub struct StorageError {
    pub detail: String,
}

impl View for StorageError {
    type V = Seq<char>;

    open spec fn view(&self) -> Seq<char> {
        self.detail@
    }
}

/// A field that a weight request must carry.
#[derive(Debug, Clone, Copy, PartialEq, Eq, Structural)]
pub enum Field {
    MemberId,
    Value,
}

/// Why a request was not served.
#[derive(Debug, PartialEq, Eq)]
pub enum Failure {
    /// The store failed.
    Storage(StorageError),
    /// A required field is missing from the request.
    RequestShape(Field),
    /// No route answers to the request.
    NotFound,
}

/// What a specification says of a failure: the storage detail as text.
pub enum FailureModel {
    Storage(Seq<char>),
    RequestShape(Field),
    NotFound,
}

impl View for Failure {
    type V = FailureModel;

    open spec fn view(&self) -> FailureModel {
        match self {
            Failure::Storage(e) => FailureModel::Storage(e@),
            Failure::RequestShape(field) => FailureModel::RequestShape(*field),
            Failure::NotFound => FailureModel::NotFound,
        }
    }
}

impl FailureModel {
    /// The HTTP status a failure is answered with: a server error for the
    /// store, a client error for a malformed request, not found where no
    /// route answers.
    pub open spec fn status(self) -> u16 {
        match self {
            FailureModel::Storage(_) => 500,
            FailureModel::RequestShape(_) => 422,
            FailureModel::NotFound => 404,
        }
    }
}

impl Failure {
    /// The HTTP status this failure is answered with.
    pub fn status(&self) -> (code: u16)
        ensures
            code == self@.status(),
    {
        match self {
            Failure::Storage(_) => 500,
            Failure::RequestShape(_) => 422,
            Failure::NotFound => 404,
        }
    }
}

} // verus!
