//! Request URLs, joined onto the registry's API root by the `url` crate.
use vstd::prelude::*;
use crate::endpoint::{module_lookup_path, module_path_of, release_path, release_path_of};
use crate::error::LookupError;

verus! {

#[verifier::external_type_specification]
#[verifier::external_body]
pub struct ExUrl(url::Url);

/// What url::Url::parse gives for a text: the URL, or why it is none.
pub uninterp spec fn url_parsed(input: Seq<char>) -> Result<url::Url, url::ParseError>;

/// What url::Url::join gives for a base URL and a reference.
pub uninterp spec fn url_joined(base: url::Url, input: Seq<char>) -> Result<url::Url, url::ParseError>;

/// Relies on url::Url::parse, which parses an absolute URL or reports why not;
/// the outcome depends on the text alone.
pub assume_specification[ url::Url::parse ](input: &str) -> (r: Result<url::Url, url::ParseError>)
    ensures
        r == url_parsed(input@),
;

/// Relies on url::Url::join, which resolves `input` against the base URL as a
/// browser resolves a link, or reports why it cannot; the outcome depends on
/// the base and the text alone.
pub assume_specification[ url::Url::join ](base: &url::Url, input: &str) -> (r: Result<url::Url, url::ParseError>)
    ensures
        r == url_joined(*base, input@),
;

/// A URL outcome with its error mapped to a lookup error.
pub open spec fn as_lookup(r: Result<url::Url, url::ParseError>) -> Result<url::Url, LookupError> {
    match r {
        Ok(u) => Ok(u),
        Err(e) => Err(LookupError::Url(e)),
    }
}

/// The API root of the public registry.
pub const API_ROOT: &'static str = "https://fastapi.metacpan.org/v1/";

/// Parses the public registry's API root.
pub fn api_root() -> (r: Result<url::Url, LookupError>)
    ensures
        r == as_lookup(url_parsed(API_ROOT@)),
{
    match url::Url::parse(API_ROOT) {
        Ok(u) => Ok(u),
        Err(e) => Err(LookupError::Url(e)),
    }
}

/// Resolves a path against the API root; the only error is a URL error.
pub fn endpoint_url(base: &url::Url, path: &str) -> (r: Result<url::Url, LookupError>)
    ensures
        r == as_lookup(url_joined(*base, path@)),
{
    match base.join(path) {
        Ok(u) => Ok(u),
        Err(e) => Err(LookupError::Url(e)),
    }
}

/// The URL that looks up a release, `<base>release/<dashed name>`.
pub fn release_url(base: &url::Url, name: &str) -> (r: Result<url::Url, LookupError>)
    ensures
        r == as_lookup(url_joined(*base, release_path_of(name@))),
{
    let path = release_path(name);
    endpoint_url(base, path.as_str())
}

/// The URL that resolves a module, `<base>module/<name>`.
pub fn module_url(base: &url::Url, name: &str) -> (r: Result<url::Url, LookupError>)
    ensures
        r == as_lookup(url_joined(*base, module_path_of(name@))),
{
    let path = module_lookup_path(name);
    endpoint_url(base, path.as_str())
}

} // verus!
