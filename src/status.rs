//! What the status line of a response means for a lookup.
use vstd::prelude::*;

verus! {

/// How a lookup goes on after the response status is known.
#[derive(PartialEq, Eq, Structural, Clone, Copy, Debug)]
pub enum StatusClass {
    /// A status that is not an error: the body is to be decoded.
    Success,
    /// 404: the name is unknown to the registry; the body is not read.
    NotFound,
    /// Any other client (4xx) or server (5xx) error status.
    Failure,
}

pub open spec fn status_class(code: u16) -> StatusClass {
    if code == 404 {
        StatusClass::NotFound
    } else if 400 <= code && code <= 599 {
        StatusClass::Failure
    } else {
        StatusClass::Success
    }
}

/// Classifies an HTTP status code.
pub fn classify_status(code: u16) -> (r: StatusClass)
    ensures
        r == status_class(code),
{
    if code == 404 {
        StatusClass::NotFound
    } else if 400 <= code && code <= 599 {
        StatusClass::Failure
    } else {
        StatusClass::Success
    }
}

} // verus!
