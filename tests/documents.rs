use metacpan_api::{
    decode_distribution, decode_perl_info, decode_version, release_path, DecodeError, HttpError,
    Json, LookupError,
};

fn text(s: &str) -> Json {
    Json::Str(s.to_string())
}

fn object(members: Vec<(&str, Json)>) -> Json {
    Json::Object(members.into_iter().map(|(k, v)| (k.to_string(), v)).collect())
}

fn dep(module: &str, phase: &str, relationship: &str, version: &str) -> Json {
    object(vec![
        ("module", text(module)),
        ("phase", text(phase)),
        ("relationship", text(relationship)),
        ("version", text(version)),
    ])
}

fn full_release() -> Json {
    object(vec![
        ("abstract", text("A postmodern object system for Perl 5")),
        ("distribution", text("Moose")),
        ("version", text("2.2207")),
        ("download_url", text("https://cpan.metacpan.org/authors/id/E/ET/ETHER/Moose-2.2207.tar.gz")),
        ("license", Json::Array(vec![text("perl_5")])),
        (
            "dependency",
            Json::Array(vec![
                dep("Class::Load", "runtime", "requires", "0.09"),
                dep("Test::More", "test", "requires", "0.88"),
            ]),
        ),
        (
            "resources",
            object(vec![
                ("homepage", text("http://moose.perl.org/")),
                (
                    "repository",
                    object(vec![
                        ("type", text("git")),
                        ("web", text("https://github.com/moose/Moose")),
                        ("url", text("git://github.com/moose/Moose.git")),
                    ]),
                ),
            ]),
        ),
    ])
}

fn field_of(r: Result<metacpan_api::PerlInfo, DecodeError>) -> String {
    match r {
        Err(e) => e.field,
        Ok(_) => panic!("expected a decode error"),
    }
}

#[test]
fn full_release_decodes() {
    let info = decode_perl_info(&full_release()).ok().unwrap();
    assert_eq!(info.name, "Moose");
    assert_eq!(info.description.as_deref(), Some("A postmodern object system for Perl 5"));
    assert_eq!(info.version, "2.2207");
    assert_eq!(
        info.download_url.as_deref(),
        Some("https://cpan.metacpan.org/authors/id/E/ET/ETHER/Moose-2.2207.tar.gz")
    );
    assert_eq!(info.license, Some(vec!["perl_5".to_string()]));
    let deps = info.dependency.unwrap();
    assert_eq!(deps.len(), 2);
    assert_eq!(deps[0].module, "Class::Load");
    assert_eq!(deps[0].phase, "runtime");
    assert_eq!(deps[0].relationship, "requires");
    assert_eq!(deps[0].version, "0.09");
    assert_eq!(deps[1].module, "Test::More");
    assert_eq!(deps[1].phase, "test");
    assert_eq!(info.resources.homepage.as_deref(), Some("http://moose.perl.org/"));
    let repo = info.resources.repository.unwrap();
    assert_eq!(repo.repo_type.as_deref(), Some("git"));
    assert_eq!(repo.web.as_deref(), Some("https://github.com/moose/Moose"));
    assert_eq!(repo.url.as_deref(), Some("git://github.com/moose/Moose.git"));
}

#[test]
fn sparse_release_decodes_with_empty_fields() {
    let doc = object(vec![
        ("distribution", text("JSON-PP")),
        ("version", text("4.16")),
        ("resources", object(vec![("homepage", text("https://example.org/"))])),
    ]);
    let info = decode_perl_info(&doc).ok().unwrap();
    assert_eq!(info.name, "JSON-PP");
    assert!(info.name.len() > 0);
    assert_eq!(info.version, "4.16");
    assert!(info.license.is_none());
    assert!(info.dependency.is_none());
    assert!(info.description.is_none());
    assert!(info.download_url.is_none());
    assert!(info.resources.repository.is_none());
    assert_eq!(info.resources.homepage.as_deref(), Some("https://example.org/"));
}

#[test]
fn absent_resources_hold_no_links() {
    let doc = object(vec![("distribution", text("Moose")), ("version", text("2.2207"))]);
    let info = decode_perl_info(&doc).ok().unwrap();
    assert!(info.resources.homepage.is_none());
    assert!(info.resources.repository.is_none());
}

#[test]
fn null_members_are_absent() {
    let doc = object(vec![
        ("distribution", text("Moose")),
        ("version", text("1")),
        ("abstract", Json::Null),
        ("download_url", Json::Null),
        ("license", Json::Null),
        ("dependency", Json::Null),
        ("resources", object(vec![("homepage", Json::Null), ("repository", Json::Null)])),
    ]);
    let info = decode_perl_info(&doc).ok().unwrap();
    assert!(info.description.is_none());
    assert!(info.download_url.is_none());
    assert!(info.license.is_none());
    assert!(info.dependency.is_none());
    assert!(info.resources.homepage.is_none());
    assert!(info.resources.repository.is_none());
}

#[test]
fn version_as_string_or_number() {
    let as_string = object(vec![("distribution", text("X")), ("version", text("1.23"))]);
    let as_number =
        object(vec![("distribution", text("X")), ("version", Json::Number("1.23".to_string()))]);
    assert_eq!(decode_perl_info(&as_string).ok().unwrap().version, "1.23");
    assert_eq!(decode_perl_info(&as_number).ok().unwrap().version, "1.23");
}

#[test]
fn version_forms() {
    assert_eq!(decode_version(Some(&Json::Number("0.004".to_string()))).unwrap(), "0.004");
    assert_eq!(decode_version(Some(&text("v1.2.3"))).unwrap(), "v1.2.3");
    assert_eq!(decode_version(Some(&Json::Bool(true))).unwrap(), "true");
    assert!(decode_version(Some(&Json::Null)).is_none());
    assert!(decode_version(None).is_none());
}

#[test]
fn missing_name_is_reported() {
    let doc = object(vec![("version", text("1"))]);
    assert_eq!(field_of(decode_perl_info(&doc)), "distribution");
}

#[test]
fn missing_version_is_reported() {
    let doc = object(vec![("distribution", text("Moose"))]);
    assert_eq!(field_of(decode_perl_info(&doc)), "version");
}

#[test]
fn ill_typed_members_are_reported() {
    let license = object(vec![
        ("distribution", text("Moose")),
        ("version", text("1")),
        ("license", text("perl_5")),
    ]);
    assert_eq!(field_of(decode_perl_info(&license)), "license");
    let deps = object(vec![
        ("distribution", text("Moose")),
        ("version", text("1")),
        ("dependency", Json::Array(vec![object(vec![("module", text("Carp"))])])),
    ]);
    assert_eq!(field_of(decode_perl_info(&deps)), "dependency");
    let repo = object(vec![
        ("distribution", text("Moose")),
        ("version", text("1")),
        ("resources", object(vec![("repository", text("git"))])),
    ]);
    assert_eq!(field_of(decode_perl_info(&repo)), "resources");
    let name = object(vec![("distribution", Json::Number("3".to_string())), ("version", text("1"))]);
    assert_eq!(field_of(decode_perl_info(&name)), "distribution");
}

#[test]
fn document_that_is_no_object_is_reported() {
    assert_eq!(field_of(decode_perl_info(&Json::Array(vec![]))), "");
    assert_eq!(decode_distribution(&text("Moose")).err().unwrap().field, "");
}

#[test]
fn first_member_of_a_key_counts() {
    let doc = object(vec![
        ("distribution", text("First")),
        ("distribution", text("Second")),
        ("version", text("1")),
    ]);
    assert_eq!(decode_perl_info(&doc).ok().unwrap().name, "First");
}

#[test]
fn module_resolves_to_its_distribution() {
    let doc = object(vec![("distribution", text("Scalar-List-Utils")), ("name", text("Scalar::Util"))]);
    let dist = decode_distribution(&doc).ok().unwrap();
    assert_eq!(dist, "Scalar-List-Utils");
    assert_eq!(release_path(&dist), "release/Scalar-List-Utils");
}

#[test]
fn module_document_without_distribution_is_reported() {
    let doc = object(vec![("name", text("Scalar::Util"))]);
    assert_eq!(decode_distribution(&doc).err().unwrap().field, "distribution");
}

#[test]
fn decode_error_becomes_an_http_error() {
    let e = LookupError::from(DecodeError { field: "version".to_string() });
    match e {
        LookupError::Http(HttpError::Schema(d)) => assert_eq!(d.field, "version"),
        _ => panic!("expected a schema error"),
    }
}
