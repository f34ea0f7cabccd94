//! Client library for the MetaCPAN registry of Perl distributions.
//!
//! The verified part builds request paths and URLs, classifies response
//! statuses and decodes response documents into typed records.
mod decode;
mod endpoint;
mod error;
mod json;
mod location;
mod records;
mod status;

pub use endpoint::{dashed, dashed_keeps_plain_names, module_lookup_path, module_path_of, normalize_name, release_path, release_path_of};
pub use error::{DecodeError, HttpError, LookupError};
pub use location::{
    api_root, as_lookup, endpoint_url, module_url, release_url, url_joined, url_parsed, API_ROOT,
};
pub use status::{classify_status, status_class, StatusClass};
pub use json::{get_member, member, member_from, present, Json};
pub use decode::{
    decode_distribution, decode_perl_info, decode_version, sparse_release_decodes,
    version_string_or_number,
};
pub use records::{
    dep_list, dep_of, deps_view, distribution_of, opt_dep_list_field, opt_repository_field,
    opt_text_field, opt_text_list_field, opt_view, perl_info_of, repository_of, resources_field,
    text_field, text_list, texts_view, version_field, PerlDep, PerlDepView, PerlInfo, PerlInfoView,
    Repository, RepositoryView, Resources, ResourcesView,
};
