//! The error kinds the broker surfaces, and their HTTP mapping.

use vstd::prelude::*;
use vstd::string::*;

verus! {

/// Why an operation of the broker failed.
#[derive(Clone, Debug)]
pub enum ErrorKind {
    /// The pool has no items — including a blocking borrow that timed out.
    Empty,
    /// The presented borrow token differs from the ledger's.
    Unauthorized,
    /// Unknown operation id, or an item without a ledger entry.
    NotFound,
    /// A must-succeed subscriber refused the borrow event.
    SubscriberError(String),
    /// The backing store failed; the payload is its report.
    StoreError(String),
    /// The request body or query was malformed.
    Validation(String),
}

impl ErrorKind {
    /// The HTTP status code each kind surfaces as.
    pub fn http_status(&self) -> (r: u16)
        ensures
            *self is Empty ==> r == 503,
            *self is Unauthorized ==> r == 401,
            *self is NotFound ==> r == 404,
            *self is SubscriberError ==> r == 502,
            *self is StoreError ==> r == 500,
            *self is Validation ==> r == 400,
    {
        match self {
            ErrorKind::Empty => 503,
            ErrorKind::Unauthorized => 401,
            ErrorKind::NotFound => 404,
            ErrorKind::SubscriberError(_) => 502,
            ErrorKind::StoreError(_) => 500,
            ErrorKind::Validation(_) => 400,
        }
    }
}

/// The body reported when the pool is empty.
pub fn empty_pool_message() -> (r: String)
    ensures
        r@ == "No items available in the freelist"@,
{
    "No items available in the freelist".to_owned()
}

/// The body reported when a blocking borrow ran out its wait budget.
pub fn empty_pool_timeout_message() -> (r: String)
    ensures
        r@ == "No items available in the freelist (timeout)"@,
{
    "No items available in the freelist (timeout)".to_owned()
}

} // verus!
