//! Decoding of response documents into records, proved against the schema.
use vstd::prelude::*;
use crate::error::DecodeError;
use crate::json::{get_member, member, present, Json};
use crate::records::{
    deps_view, dep_list, dep_of, opt_dep_list_field, opt_text_field, opt_text_list_field, opt_view,
    repository_of, resources_field, text_field, text_list, texts_view, version_field, PerlDep,
    distribution_of, perl_info_of, PerlDepView, PerlInfoView, PerlInfo, Repository, Resources,
};

verus! {

pub open spec fn opt_opt_view(o: Option<Option<String>>) -> Option<Option<Seq<char>>> {
    match o {
        Some(i) => Some(opt_view(i)),
        None => None,
    }
}

fn fault(key: &str) -> (e: DecodeError)
    ensures
        e.field@ == key@,
{
    DecodeError { field: key.to_string() }
}

fn decode_text(f: Option<&Json>) -> (r: Option<String>)
    ensures
        opt_view(r) == text_field(present(f)),
{
    match f {
        Some(Json::Str(s)) => Some(s.clone()),
        _ => None,
    }
}

fn decode_opt_text(f: Option<&Json>) -> (r: Option<Option<String>>)
    ensures
        opt_opt_view(r) == opt_text_field(present(f)),
{
    match f {
        None => Some(None),
        Some(Json::Null) => Some(None),
        Some(Json::Str(s)) => Some(Some(s.clone())),
        _ => None,
    }
}

/// Reads a version member: a string as it is, a number or a boolean as the
/// text JSON writes for it.
pub fn decode_version(f: Option<&Json>) -> (r: Option<String>)
    ensures
        opt_view(r) == version_field(present(f)),
{
    match f {
        Some(Json::Str(s)) => Some(s.clone()),
        Some(Json::Number(t)) => Some(t.clone()),
        Some(Json::Bool(b)) => {
            if *b {
                Some("true".to_string())
            } else {
                Some("false".to_string())
            }
        },
        _ => None,
    }
}

fn decode_text_list(items: &Vec<Json>) -> (r: Option<Vec<String>>)
    ensures
        match r {
            Some(v) => text_list(items@) == Some(texts_view(v@)),
            None => text_list(items@) is None,
        },
{
    let mut out: Vec<String> = Vec::new();
    let mut i: usize = 0;
    while i < items.len()
        invariant
            i <= items@.len(),
            out@.len() == i,
            forall|k: int| 0 <= k < i ==> (#[trigger] items@[k]) is Str && out@[k]@ == items@[k]->Str_0@,
        decreases items.len() - i,
    {
        match &items[i] {
            Json::Str(s) => {
                out.push(s.clone());
            },
            _ => {
                return None;
            },
        }
        i = i + 1;
    }
    assert(texts_view(out@) =~= items@.map_values(|j: Json| j->Str_0@));
    Some(out)
}

fn decode_opt_text_list(f: Option<&Json>) -> (r: Option<Option<Vec<String>>>)
    ensures
        match r {
            Some(Some(v)) => opt_text_list_field(present(f)) == Some(Some(texts_view(v@))),
            Some(None) => opt_text_list_field(present(f)) == Some(None::<Seq<Seq<char>>>),
            None => opt_text_list_field(present(f)) is None,
        },
{
    match f {
        None => Some(None),
        Some(Json::Null) => Some(None),
        Some(Json::Array(items)) => match decode_text_list(items) {
            Some(v) => Some(Some(v)),
            None => None,
        },
        _ => None,
    }
}

fn decode_repository(v: &Json) -> (r: Option<Repository>)
    ensures
        match r {
            Some(x) => repository_of(*v) == Some(x@),
            None => repository_of(*v) is None,
        },
{
    match v {
        Json::Object(fs) => {
            let repo_type = decode_opt_text(get_member(fs, "type"));
            let web = decode_opt_text(get_member(fs, "web"));
            let url = decode_opt_text(get_member(fs, "url"));
            match (repo_type, web, url) {
                (Some(repo_type), Some(web), Some(url)) => Some(Repository { repo_type, web, url }),
                _ => None,
            }
        },
        _ => None,
    }
}

fn decode_resources(f: Option<&Json>) -> (r: Option<Resources>)
    ensures
        match r {
            Some(x) => resources_field(present(f)) == Some(x@),
            None => resources_field(present(f)) is None,
        },
{
    match f {
        None => Some(Resources { homepage: None, repository: None }),
        Some(Json::Null) => Some(Resources { homepage: None, repository: None }),
        Some(Json::Object(fs)) => {
            let homepage = match decode_opt_text(get_member(fs, "homepage")) {
                Some(h) => h,
                None => {
                    return None;
                },
            };
            let repository = match get_member(fs, "repository") {
                None => None,
                Some(Json::Null) => None,
                Some(v) => match decode_repository(v) {
                    Some(x) => Some(x),
                    None => {
                        return None;
                    },
                },
            };
            Some(Resources { homepage, repository })
        },
        _ => None,
    }
}

fn decode_dep(v: &Json) -> (r: Option<PerlDep>)
    ensures
        match r {
            Some(d) => dep_of(*v) == Some(d@),
            None => dep_of(*v) is None,
        },
{
    match v {
        Json::Object(fs) => {
            let module = decode_text(get_member(fs, "module"));
            let phase = decode_text(get_member(fs, "phase"));
            let relationship = decode_text(get_member(fs, "relationship"));
            let version = decode_text(get_member(fs, "version"));
            match (module, phase, relationship, version) {
                (Some(module), Some(phase), Some(relationship), Some(version)) => Some(
                    PerlDep { module, phase, relationship, version },
                ),
                _ => None,
            }
        },
        _ => None,
    }
}

fn decode_dep_list(items: &Vec<Json>) -> (r: Option<Vec<PerlDep>>)
    ensures
        match r {
            Some(v) => dep_list(items@) == Some(deps_view(v@)),
            None => dep_list(items@) is None,
        },
{
    let mut out: Vec<PerlDep> = Vec::new();
    let mut i: usize = 0;
    while i < items.len()
        invariant
            i <= items@.len(),
            out@.len() == i,
            forall|k: int|
                0 <= k < i ==> (#[trigger] dep_of(items@[k])) == Some(out@[k]@),
        decreases items.len() - i,
    {
        match decode_dep(&items[i]) {
            Some(d) => {
                out.push(d);
            },
            None => {
                return None;
            },
        }
        i = i + 1;
    }
    assert(deps_view(out@) =~= items@.map_values(|j: Json| dep_of(j)->0));
    Some(out)
}

fn decode_opt_dep_list(f: Option<&Json>) -> (r: Option<Option<Vec<PerlDep>>>)
    ensures
        match r {
            Some(Some(v)) => opt_dep_list_field(present(f)) == Some(Some(deps_view(v@))),
            Some(None) => opt_dep_list_field(present(f)) == Some(None::<Seq<PerlDepView>>),
            None => opt_dep_list_field(present(f)) is None,
        },
{
    match f {
        None => Some(None),
        Some(Json::Null) => Some(None),
        Some(Json::Array(items)) => match decode_dep_list(items) {
            Some(v) => Some(Some(v)),
            None => None,
        },
        _ => None,
    }
}

/// Decodes a release document into its record, or names the first member at
/// fault.
pub fn decode_perl_info(doc: &Json) -> (r: Result<PerlInfo, DecodeError>)
    ensures
        match r {
            Ok(info) => perl_info_of(*doc) == Ok::<PerlInfoView, Seq<char>>(info@),
            Err(e) => perl_info_of(*doc) == Err::<PerlInfoView, Seq<char>>(e.field@),
        },
{
    let fs = match doc {
        Json::Object(fs) => fs,
        _ => {
            return Err(DecodeError { field: String::new() });
        },
    };
    let name = match decode_text(get_member(fs, "distribution")) {
        Some(n) => n,
        None => {
            return Err(fault("distribution"));
        },
    };
    let description = match decode_opt_text(get_member(fs, "abstract")) {
        Some(d) => d,
        None => {
            return Err(fault("abstract"));
        },
    };
    let version = match decode_version(get_member(fs, "version")) {
        Some(v) => v,
        None => {
            return Err(fault("version"));
        },
    };
    let download_url = match decode_opt_text(get_member(fs, "download_url")) {
        Some(d) => d,
        None => {
            return Err(fault("download_url"));
        },
    };
    let license = match decode_opt_text_list(get_member(fs, "license")) {
        Some(l) => l,
        None => {
            return Err(fault("license"));
        },
    };
    let dependency = match decode_opt_dep_list(get_member(fs, "dependency")) {
        Some(d) => d,
        None => {
            return Err(fault("dependency"));
        },
    };
    let resources = match decode_resources(get_member(fs, "resources")) {
        Some(x) => x,
        None => {
            return Err(fault("resources"));
        },
    };
    Ok(PerlInfo { dependency, description, download_url, license, name, resources, version })
}

/// Decodes a module-lookup document into the name of the distribution that
/// holds the module.
pub fn decode_distribution(doc: &Json) -> (r: Result<String, DecodeError>)
    ensures
        match r {
            Ok(d) => distribution_of(*doc) == Ok::<Seq<char>, Seq<char>>(d@),
            Err(e) => distribution_of(*doc) == Err::<Seq<char>, Seq<char>>(e.field@),
        },
{
    match doc {
        Json::Object(fs) => match decode_text(get_member(fs, "distribution")) {
            Some(d) => Ok(d),
            None => Err(fault("distribution")),
        },
        _ => Err(DecodeError { field: String::new() }),
    }
}

/// A release document that gives its distribution name and version but no
/// description, download location, license list or dependency list, and
/// either no resources or resources without a repository, decodes: those
/// fields come out empty, and the name and version as written.
pub proof fn sparse_release_decodes(fs: Vec<(String, Json)>)
    requires
        member(fs@, "distribution"@) matches Some(Json::Str(_)),
        member(fs@, "version"@) matches Some(Json::Str(_)) || member(fs@, "version"@) matches Some(Json::Number(_)),
        member(fs@, "abstract"@) is None,
        member(fs@, "download_url"@) is None,
        member(fs@, "license"@) is None,
        member(fs@, "dependency"@) is None,
        member(fs@, "resources"@) is None || (member(fs@, "resources"@) matches Some(Json::Object(rs))
            && member(rs@, "repository"@) is None
            && opt_text_field(member(rs@, "homepage"@)) is Some),
    ensures
        perl_info_of(Json::Object(fs)) is Ok,
        perl_info_of(Json::Object(fs))->Ok_0.name == text_field(member(fs@, "distribution"@))->0,
        perl_info_of(Json::Object(fs))->Ok_0.version == version_field(member(fs@, "version"@))->0,
        perl_info_of(Json::Object(fs))->Ok_0.description is None,
        perl_info_of(Json::Object(fs))->Ok_0.download_url is None,
        perl_info_of(Json::Object(fs))->Ok_0.license is None,
        perl_info_of(Json::Object(fs))->Ok_0.dependency is None,
        perl_info_of(Json::Object(fs))->Ok_0.resources.repository is None,
{
}

/// A version written as a JSON string and the same text written as a JSON
/// number both read as that text.
pub proof fn version_string_or_number(t: String)
    ensures
        version_field(Some(Json::Str(t))) == Some(t@),
        version_field(Some(Json::Number(t))) == Some(t@),
{
}

} // verus!
