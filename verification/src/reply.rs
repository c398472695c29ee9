//! Successful answers that carry more than their body.

use vstd::prelude::*;

verus! {

/// The answer to a request that created a record: the record, and where the
/// `Location` header points.
#[derive(Debug, PartialEq, Eq)]
pub struct Created<T> {
    pub location: String,
    pub body: T,
}

/// Where the `Location` header of every creation points.
pub open spec fn created_at() -> Seq<char> {
    "/"@
}

/// The HTTP status of a creation.
pub open spec fn created_status() -> u16 {
    201
}

impl<T> Created<T> {
    /// Wraps a freshly stored record.
    pub fn new(body: T) -> (reply: Created<T>)
        ensures
            reply.location@ == created_at(),
            reply.body == body,
    {
        Created { location: String::from_str("/"), body }
    }

    /// The HTTP status this answer is sent with.
    pub fn status(&self) -> (code: u16)
        ensures
            code == created_status(),
    {
        201
    }
}

} // verus!
