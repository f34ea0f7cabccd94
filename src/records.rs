//! The records the registry returns, and their decoding from JSON.
//!
//! One flat document shape is accepted for a release: the record's fields sit
//! at the top level. Every field but the distribution name and the version
//! may be absent or `null`; `resources` and `resources.repository` may be
//! absent as a whole.
use vstd::prelude::*;
use crate::json::{member, Json};

verus! {

pub struct Repository {
    /// The `type` member, such as "git".
    pub repo_type: Option<String>,
    pub web: Option<String>,
    pub url: Option<String>,
}

pub struct Resources {
    pub homepage: Option<String>,
    pub repository: Option<Repository>,
}

pub struct PerlDep {
    pub module: String,
    /// "runtime", "test", "develop", "configure", ...
    pub phase: String,
    /// "requires", "recommends", "suggests", ...
    pub relationship: String,
    /// The version constraint.
    pub version: String,
}

pub struct PerlInfo {
    pub dependency: Option<Vec<PerlDep>>,
    /// The `abstract` member.
    pub description: Option<String>,
    pub download_url: Option<String>,
    pub license: Option<Vec<String>>,
    /// The `distribution` member.
    pub name: String,
    pub resources: Resources,
    /// The version as text, whether the document wrote a string or a number.
    pub version: String,
}

pub struct RepositoryView {
    pub repo_type: Option<Seq<char>>,
    pub web: Option<Seq<char>>,
    pub url: Option<Seq<char>>,
}

pub struct ResourcesView {
    pub homepage: Option<Seq<char>>,
    pub repository: Option<RepositoryView>,
}

pub struct PerlDepView {
    pub module: Seq<char>,
    pub phase: Seq<char>,
    pub relationship: Seq<char>,
    pub version: Seq<char>,
}

pub struct PerlInfoView {
    pub dependency: Option<Seq<PerlDepView>>,
    pub description: Option<Seq<char>>,
    pub download_url: Option<Seq<char>>,
    pub license: Option<Seq<Seq<char>>>,
    pub name: Seq<char>,
    pub resources: ResourcesView,
    pub version: Seq<char>,
}

pub open spec fn opt_view(o: Option<String>) -> Option<Seq<char>> {
    match o {
        Some(s) => Some(s@),
        None => None,
    }
}

pub open spec fn texts_view(v: Seq<String>) -> Seq<Seq<char>> {
    v.map_values(|s: String| s@)
}

pub open spec fn deps_view(v: Seq<PerlDep>) -> Seq<PerlDepView> {
    v.map_values(|d: PerlDep| d@)
}

impl View for Repository {
    type V = RepositoryView;

    open spec fn view(&self) -> RepositoryView {
        RepositoryView {
            repo_type: opt_view(self.repo_type),
            web: opt_view(self.web),
            url: opt_view(self.url),
        }
    }
}

impl View for Resources {
    type V = ResourcesView;

    open spec fn view(&self) -> ResourcesView {
        ResourcesView {
            homepage: opt_view(self.homepage),
            repository: match self.repository {
                Some(r) => Some(r@),
                None => None,
            },
        }
    }
}

impl View for PerlDep {
    type V = PerlDepView;

    open spec fn view(&self) -> PerlDepView {
        PerlDepView {
            module: self.module@,
            phase: self.phase@,
            relationship: self.relationship@,
            version: self.version@,
        }
    }
}

impl View for PerlInfo {
    type V = PerlInfoView;

    open spec fn view(&self) -> PerlInfoView {
        PerlInfoView {
            dependency: match self.dependency {
                Some(v) => Some(deps_view(v@)),
                None => None,
            },
            description: opt_view(self.description),
            download_url: opt_view(self.download_url),
            license: match self.license {
                Some(v) => Some(texts_view(v@)),
                None => None,
            },
            name: self.name@,
            resources: self.resources@,
            version: self.version@,
        }
    }
}

// The schema. For a member `f` (absent: `None`), each `*_field` function
// gives `Some` of the decoded value, or `None` where the member is missing
// or of the wrong type.

/// A required string.
pub open spec fn text_field(f: Option<Json>) -> Option<Seq<char>> {
    match f {
        Some(Json::Str(s)) => Some(s@),
        _ => None,
    }
}

/// An optional string: absent and `null` both mean "none".
pub open spec fn opt_text_field(f: Option<Json>) -> Option<Option<Seq<char>>> {
    match f {
        None => Some(None),
        Some(Json::Null) => Some(None),
        Some(Json::Str(s)) => Some(Some(s@)),
        _ => None,
    }
}

/// A version: a string as it is, a number or a boolean as its JSON text.
pub open spec fn version_field(f: Option<Json>) -> Option<Seq<char>> {
    match f {
        Some(Json::Str(s)) => Some(s@),
        Some(Json::Number(t)) => Some(t@),
        Some(Json::Bool(b)) => Some(if b { "true"@ } else { "false"@ }),
        _ => None,
    }
}

/// An array of strings.
pub open spec fn text_list(items: Seq<Json>) -> Option<Seq<Seq<char>>> {
    if forall|i: int| 0 <= i < items.len() ==> (#[trigger] items[i]) is Str {
        Some(items.map_values(|j: Json| j->Str_0@))
    } else {
        None
    }
}

/// An optional array of strings.
pub open spec fn opt_text_list_field(f: Option<Json>) -> Option<Option<Seq<Seq<char>>>> {
    match f {
        None => Some(None),
        Some(Json::Null) => Some(None),
        Some(Json::Array(v)) => match text_list(v@) {
            Some(l) => Some(Some(l)),
            None => None,
        },
        _ => None,
    }
}

pub open spec fn repository_of(v: Json) -> Option<RepositoryView> {
    match v {
        Json::Object(fs) => match (
            opt_text_field(member(fs@, "type"@)),
            opt_text_field(member(fs@, "web"@)),
            opt_text_field(member(fs@, "url"@)),
        ) {
            (Some(t), Some(w), Some(u)) => Some(RepositoryView { repo_type: t, web: w, url: u }),
            _ => None,
        },
        _ => None,
    }
}

/// An optional repository object.
pub open spec fn opt_repository_field(f: Option<Json>) -> Option<Option<RepositoryView>> {
    match f {
        None => Some(None),
        Some(Json::Null) => Some(None),
        Some(v) => match repository_of(v) {
            Some(r) => Some(Some(r)),
            None => None,
        },
    }
}

/// The resources object; absent or `null`, it holds no links.
pub open spec fn resources_field(f: Option<Json>) -> Option<ResourcesView> {
    match f {
        None => Some(ResourcesView { homepage: None, repository: None }),
        Some(Json::Null) => Some(ResourcesView { homepage: None, repository: None }),
        Some(Json::Object(fs)) => match (
            opt_text_field(member(fs@, "homepage"@)),
            opt_repository_field(member(fs@, "repository"@)),
        ) {
            (Some(h), Some(r)) => Some(ResourcesView { homepage: h, repository: r }),
            _ => None,
        },
        _ => None,
    }
}

pub open spec fn dep_of(v: Json) -> Option<PerlDepView> {
    match v {
        Json::Object(fs) => match (
            text_field(member(fs@, "module"@)),
            text_field(member(fs@, "phase"@)),
            text_field(member(fs@, "relationship"@)),
            text_field(member(fs@, "version"@)),
        ) {
            (Some(m), Some(p), Some(r), Some(v)) => Some(
                PerlDepView { module: m, phase: p, relationship: r, version: v },
            ),
            _ => None,
        },
        _ => None,
    }
}

/// An array of dependency objects.
pub open spec fn dep_list(items: Seq<Json>) -> Option<Seq<PerlDepView>> {
    if forall|i: int| 0 <= i < items.len() ==> (#[trigger] dep_of(items[i])) is Some {
        Some(items.map_values(|j: Json| dep_of(j)->0))
    } else {
        None
    }
}

/// An optional array of dependency objects.
pub open spec fn opt_dep_list_field(f: Option<Json>) -> Option<Option<Seq<PerlDepView>>> {
    match f {
        None => Some(None),
        Some(Json::Null) => Some(None),
        Some(Json::Array(v)) => match dep_list(v@) {
            Some(l) => Some(Some(l)),
            None => None,
        },
        _ => None,
    }
}

/// The release record a document describes, or the key of the first member
/// (in the order of the record's fields) that is missing or ill-typed; the
/// empty key where the document is not an object.
pub open spec fn perl_info_of(doc: Json) -> Result<PerlInfoView, Seq<char>> {
    match doc {
        Json::Object(fs) => {
            let f = fs@;
            match text_field(member(f, "distribution"@)) {
                None => Err("distribution"@),
                Some(name) => match opt_text_field(member(f, "abstract"@)) {
                    None => Err("abstract"@),
                    Some(description) => match version_field(member(f, "version"@)) {
                        None => Err("version"@),
                        Some(version) => match opt_text_field(member(f, "download_url"@)) {
                            None => Err("download_url"@),
                            Some(download_url) => match opt_text_list_field(member(f, "license"@)) {
                                None => Err("license"@),
                                Some(license) => match opt_dep_list_field(
                                    member(f, "dependency"@),
                                ) {
                                    None => Err("dependency"@),
                                    Some(dependency) => match resources_field(
                                        member(f, "resources"@),
                                    ) {
                                        None => Err("resources"@),
                                        Some(resources) => Ok(
                                            PerlInfoView {
                                                dependency,
                                                description,
                                                download_url,
                                                license,
                                                name,
                                                resources,
                                                version,
                                            },
                                        ),
                                    },
                                },
                            },
                        },
                    },
                },
            }
        },
        _ => Err(Seq::empty()),
    }
}

/// The distribution a module-lookup document names, or the key at fault.
pub open spec fn distribution_of(doc: Json) -> Result<Seq<char>, Seq<char>> {
    match doc {
        Json::Object(fs) => match text_field(member(fs@, "distribution"@)) {
            Some(d) => Ok(d),
            None => Err("distribution"@),
        },
        _ => Err(Seq::empty()),
    }
}

} // verus!
