//! The errors that a registry lookup reports, and the outside types they carry.
use vstd::prelude::*;

verus! {

#[verifier::external_type_specification]
#[verifier::external_body]
pub struct ExReqwestError(reqwest::Error);

#[verifier::external_type_specification]
#[verifier::external_body]
pub struct ExParseError(url::ParseError);

/// A response document that does not have the shape of the expected record.
pub struct DecodeError {
    /// Key of the top-level field whose value was missing or ill-typed;
    /// empty where the document itself is not an object.
    pub field: String,
}

/// Failures on the way to a usable response body.
pub enum HttpError {
    /// The transport failed, or the registry answered with an error status
    /// other than "not found", or the body was not JSON.
    Transport(reqwest::Error),
    /// The body was JSON but not of the expected shape.
    Schema(DecodeError),
}

/// The error of every lookup.
pub enum LookupError {
    Http(HttpError),
    /// The request URL could not be built from the name.
    Url(url::ParseError),
    /// The registry knows no such distribution or module.
    NotFound,
}

impl From<reqwest::Error> for LookupError {
    fn from(e: reqwest::Error) -> (r: LookupError)
        ensures
            r == LookupError::Http(HttpError::Transport(e)),
    {
        LookupError::Http(HttpError::Transport(e))
    }
}

impl vstd::std_specs::convert::FromSpecImpl<reqwest::Error> for LookupError {
    open spec fn obeys_from_spec() -> bool {
        true
    }

    open spec fn from_spec(e: reqwest::Error) -> LookupError {
        LookupError::Http(HttpError::Transport(e))
    }
}

impl From<url::ParseError> for LookupError {
    fn from(e: url::ParseError) -> (r: LookupError)
        ensures
            r == LookupError::Url(e),
    {
        LookupError::Url(e)
    }
}

impl vstd::std_specs::convert::FromSpecImpl<url::ParseError> for LookupError {
    open spec fn obeys_from_spec() -> bool {
        true
    }

    open spec fn from_spec(e: url::ParseError) -> LookupError {
        LookupError::Url(e)
    }
}

impl From<DecodeError> for LookupError {
    fn from(e: DecodeError) -> (r: LookupError)
        ensures
            r == LookupError::Http(HttpError::Schema(e)),
    {
        LookupError::Http(HttpError::Schema(e))
    }
}

impl vstd::std_specs::convert::FromSpecImpl<DecodeError> for LookupError {
    open spec fn obeys_from_spec() -> bool {
        true
    }

    open spec fn from_spec(e: DecodeError) -> LookupError {
        LookupError::Http(HttpError::Schema(e))
    }
}

} // verus!
