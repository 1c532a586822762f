use release_tasks::error::ReleaseError;
use release_tasks::version::{Identifier, Version};

#[test]
fn parse_reads_a_prerelease_version() {
    let v = Version::parse("1.3.0-dev").unwrap();
    assert_eq!(v.major, 1);
    assert_eq!(v.minor, 3);
    assert_eq!(v.patch, 0);
    assert_eq!(v.pre, vec![Identifier::AlphaNumeric("dev".to_string())]);
    assert!(v.build.is_empty());
    assert!(v.is_prerelease());
}

#[test]
fn parse_reads_numbers_and_build_metadata() {
    let v = Version::parse("10.20.30-rc.1+build.007").unwrap();
    assert_eq!(v.major, 10);
    assert_eq!(v.minor, 20);
    assert_eq!(v.patch, 30);
    assert_eq!(
        v.pre,
        vec![Identifier::AlphaNumeric("rc".to_string()), Identifier::Numeric(1)]
    );
    assert_eq!(
        v.build,
        vec![
            Identifier::AlphaNumeric("build".to_string()),
            Identifier::AlphaNumeric("007".to_string())
        ]
    );
}

#[test]
fn parse_reads_a_final_version() {
    let v = Version::parse("2.0.0").unwrap();
    assert_eq!(v, Version::new(2, 0, 0));
    assert!(!v.is_prerelease());
}

#[test]
fn build_metadata_alone_is_no_prerelease() {
    let v = Version::parse("2.0.0+linux").unwrap();
    assert!(!v.is_prerelease());
}

#[test]
fn parse_rejects_what_is_no_version() {
    for text in ["", "1", "1.2", "1.2.3-", "a.b.c", "1.2.3 junk", "01.2.3"] {
        match Version::parse(text) {
            Err(ReleaseError::Version { detail }) => assert!(!detail.is_empty()),
            other => panic!("{:?} gave {:?}", text, other),
        }
    }
}

#[test]
fn to_text_writes_the_canonical_form() {
    let v = Version::parse("1.3.0-dev.7+build.01").unwrap();
    assert_eq!(v.to_text(), "1.3.0-dev.7+build.01");
    assert_eq!(Version::new(10, 200, 3).to_text(), "10.200.3");
    assert_eq!(Version::new(0, 0, 0).to_text(), "0.0.0");
    assert_eq!(
        Version::new(u64::MAX, 0, 9).to_text(),
        "18446744073709551615.0.9"
    );
}

#[test]
fn to_text_writes_a_version_built_by_hand() {
    let v = Version {
        major: 1,
        minor: 2,
        patch: 3,
        pre: vec![Identifier::Numeric(4), Identifier::AlphaNumeric("x-y".to_string())],
        build: vec![Identifier::Numeric(0)],
    };
    assert_eq!(v.to_text(), "1.2.3-4.x-y+0");
}

#[test]
fn text_of_a_parsed_version_parses_back() {
    for text in ["1.3.0-dev", "0.0.1", "4.5.6-alpha.1.2+b.3", "1.0.0-0.3.7", "1.0.0-x.7.z.92"] {
        let v = Version::parse(text).unwrap();
        assert_eq!(v.to_text(), text);
        assert_eq!(Version::parse(&v.to_text()).unwrap(), v);
    }
}

#[test]
fn increment_minor_moves_to_the_next_minor_release() {
    let mut v = Version::parse("1.3.7-dev+build").unwrap();
    v.increment_minor();
    assert_eq!(v.major, 1);
    assert_eq!(v.minor, 4);
    assert_eq!(v.patch, 0);
    assert!(v.pre.is_empty());
    assert!(v.build.is_empty());
    assert!(!v.is_prerelease());
    assert_eq!(v.to_text(), "1.4.0");
}

#[test]
fn increment_minor_reaches_the_largest_minor() {
    let mut v = Version::new(3, u64::MAX - 1, 5);
    v.increment_minor();
    assert_eq!(v, Version::new(3, u64::MAX, 0));
}

#[test]
fn parsed_versions_are_well_formed() {
    for text in ["1.3.0-dev", "0.0.1", "4.5.6-alpha.1.2+b-c.3", "1.0.0-a..b"] {
        assert!(Version::parse(text).unwrap().is_well_formed());
    }
    assert!(Version::new(1, 2, 3).is_well_formed());
}

#[test]
fn stray_characters_make_a_version_ill_formed() {
    for stray in ["a b", "\"quoted\"", "dot.ted", "plus+", "caf\u{e9}", "under_score"] {
        let mut v = Version::new(1, 2, 3);
        v.pre.push(Identifier::AlphaNumeric(stray.to_string()));
        assert!(!v.is_well_formed());
        let mut v = Version::new(1, 2, 3);
        v.build.push(Identifier::Numeric(7));
        v.build.push(Identifier::AlphaNumeric(stray.to_string()));
        assert!(!v.is_well_formed());
    }
}
