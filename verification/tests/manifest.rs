use release_tasks::error::ReleaseError;
use release_tasks::manifest::{
    get_version, package_name, parse_manifest, render_manifest, set_version,
};
use release_tasks::version::Version;

const MANIFEST: &str = r#"# The package.
[package]
name    = "mdcat"   # its name
version = "1.3.0-dev"
authors = ['someone']

[dependencies]
# pinned
semver = { version = "0.9", features = [] }

[[bin]]
name = "mdcat"
"#;

#[test]
fn an_untouched_manifest_is_written_as_it_was_read() {
    let doc = parse_manifest(MANIFEST).unwrap();
    assert_eq!(render_manifest(&doc), MANIFEST);
}

#[test]
fn an_empty_manifest_is_written_as_it_was_read() {
    let doc = parse_manifest("").unwrap();
    assert_eq!(render_manifest(&doc), "");
}

#[test]
fn parse_manifest_rejects_what_is_no_document() {
    match parse_manifest("[package\nname = ") {
        Err(ReleaseError::Manifest { detail }) => assert!(!detail.is_empty()),
        other => panic!("{:?}", other),
    }
}

#[test]
fn package_name_is_read_from_the_package_table() {
    let doc = parse_manifest(MANIFEST).unwrap();
    assert_eq!(package_name(&doc).unwrap(), "mdcat");
}

#[test]
fn package_name_is_missing_without_a_package_table() {
    let doc = parse_manifest("[dependencies]\nname = \"x\"\n").unwrap();
    assert!(matches!(package_name(&doc), Err(ReleaseError::PackageNameMissing)));
}

#[test]
fn package_name_is_missing_where_it_is_no_string() {
    let doc = parse_manifest("[package]\nname = 7\nversion = \"1.0.0\"\n").unwrap();
    assert!(matches!(package_name(&doc), Err(ReleaseError::PackageNameMissing)));
}

#[test]
fn get_version_reads_the_package_version() {
    let doc = parse_manifest(MANIFEST).unwrap();
    assert_eq!(get_version(&doc).unwrap(), Version::parse("1.3.0-dev").unwrap());
}

#[test]
fn get_version_reads_an_inline_package_table() {
    let doc = parse_manifest("package = { name = \"a\", version = \"0.2.1\" }\n").unwrap();
    assert_eq!(get_version(&doc).unwrap(), Version::new(0, 2, 1));
}

#[test]
fn get_version_fails_where_the_version_is_missing() {
    let doc = parse_manifest("[package]\nname = \"a\"\n").unwrap();
    assert!(matches!(get_version(&doc), Err(ReleaseError::VersionMissing)));
    let doc = parse_manifest("[package]\nname = \"a\"\nversion = 3\n").unwrap();
    assert!(matches!(get_version(&doc), Err(ReleaseError::VersionMissing)));
}

#[test]
fn get_version_fails_where_the_version_is_malformed() {
    let doc = parse_manifest("[package]\nname = \"a\"\nversion = \"1.3\"\n").unwrap();
    assert!(matches!(get_version(&doc), Err(ReleaseError::Version { .. })));
}

#[test]
fn set_version_then_get_version_returns_the_version() {
    for text in ["1.4.0", "2.0.0-rc.1", "0.1.0-dev+build.5", "7.8.9+x-y"] {
        let version = Version::parse(text).unwrap();
        let mut doc = parse_manifest(MANIFEST).unwrap();
        set_version(&mut doc, &version);
        assert_eq!(get_version(&doc).unwrap(), version);
    }
}

#[test]
fn set_version_changes_the_version_and_nothing_else() {
    let mut doc = parse_manifest(MANIFEST).unwrap();
    set_version(&mut doc, &Version::new(1, 4, 0));
    let expected = MANIFEST.replace("version = \"1.3.0-dev\"", "version = \"1.4.0\"");
    assert_eq!(render_manifest(&doc), expected);
    assert_eq!(package_name(&doc).unwrap(), "mdcat");
}

#[test]
fn set_version_overwrites_in_an_inline_package_table() {
    let mut doc = parse_manifest("package = { name = \"a\", version = \"0.2.1\" }\n").unwrap();
    set_version(&mut doc, &Version::new(0, 3, 0));
    assert_eq!(get_version(&doc).unwrap(), Version::new(0, 3, 0));
    assert_eq!(package_name(&doc).unwrap(), "a");
}
