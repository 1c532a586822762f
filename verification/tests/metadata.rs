use release_tasks::error::ReleaseError;
use release_tasks::metadata::{fractions_are_short, workspace_root, FRACTION_LIMIT};

fn read(stdout: &[u8]) -> Result<String, ReleaseError> {
    workspace_root(true, "exit status: 0", stdout)
}

#[test]
fn workspace_root_is_read_from_the_metadata() {
    let stdout = br#"{"packages":[],"workspace_root":"/home/me/mdcat","version":1}"#;
    assert_eq!(read(stdout).unwrap(), "/home/me/mdcat");
}

#[test]
fn workspace_root_may_hold_any_characters() {
    let stdout = "{\"workspace_root\": \"/tmp/caf\u{e9} \\\"x\\\"\"}".as_bytes();
    assert_eq!(read(stdout).unwrap(), "/tmp/caf\u{e9} \"x\"");
}

#[test]
fn workspace_root_missing_from_the_metadata() {
    assert!(matches!(
        read(br#"{"packages":[]}"#),
        Err(ReleaseError::MissingWorkspaceRoot)
    ));
}

#[test]
fn workspace_root_that_is_no_string() {
    assert!(matches!(
        read(br#"{"workspace_root": 7}"#),
        Err(ReleaseError::MissingWorkspaceRoot)
    ));
}

#[test]
fn metadata_that_is_no_object() {
    assert!(matches!(read(b"[1, 2]"), Err(ReleaseError::MissingWorkspaceRoot)));
}

#[test]
fn metadata_that_is_no_json() {
    match read(b"{\"workspace_root\": ") {
        Err(ReleaseError::Metadata { detail }) => assert!(!detail.is_empty()),
        other => panic!("{:?}", other),
    }
}

#[test]
fn empty_output_is_no_json() {
    assert!(matches!(read(b""), Err(ReleaseError::Metadata { .. })));
}

#[test]
fn output_that_is_not_utf8() {
    match read(&[b'{', 0xff, 0xfe, b'}']) {
        Err(ReleaseError::InvalidUtf8 { detail }) => assert!(!detail.is_empty()),
        other => panic!("{:?}", other),
    }
}

#[test]
fn a_failed_command_gives_no_root_whatever_it_printed() {
    let stdout = br#"{"workspace_root":"/home/me/mdcat"}"#;
    match workspace_root(false, "exit status: 101", stdout) {
        Err(error) => {
            assert!(matches!(error, ReleaseError::CommandFailed { .. }));
            assert_eq!(
                error.message(),
                "Command cargo metadata failed with status exit status: 101"
            );
        }
        other => panic!("{:?}", other),
    }
    assert!(matches!(
        workspace_root(false, "signal: 9", b""),
        Err(ReleaseError::CommandFailed { .. })
    ));
}

fn metadata_with(member: &[u8]) -> Vec<u8> {
    let mut stdout = b"{\"workspace_root\": \"/w\", \"n\": ".to_vec();
    stdout.extend(member);
    stdout.extend(b"}");
    stdout
}

fn fraction(lead: &[u8], zeros: usize, tail: &[u8]) -> Vec<u8> {
    let mut number = lead.to_vec();
    number.extend(vec![b'0'; zeros]);
    number.extend(tail);
    number
}

#[test]
fn fraction_limit_is_the_depth_of_a_sixteen_bit_exponent() {
    assert_eq!(FRACTION_LIMIT, 32768);
}

#[test]
fn a_long_digit_run_inside_a_string_is_read() {
    let mut member = b"\"".to_vec();
    member.extend(vec![b'7'; 40000]);
    member.extend(b"\"");
    assert_eq!(read(&metadata_with(&member)).unwrap(), "/w");
    let member = fraction(b"\"0.", 40000, b"\"");
    assert_eq!(read(&metadata_with(&member)).unwrap(), "/w");
    let member = fraction(b"\"a \\\" quote, then 0.", 40000, b"\"");
    assert_eq!(read(&metadata_with(&member)).unwrap(), "/w");
}

#[test]
fn a_long_fraction_after_a_non_zero_integer_part_is_read() {
    for lead in [b"1.".as_slice(), b"10.".as_slice(), b"-7.".as_slice(), b"100.".as_slice()] {
        let member = fraction(lead, 40000, b"");
        assert_eq!(read(&metadata_with(&member)).unwrap(), "/w");
        let member = fraction(lead, 40000, b"25e3");
        assert_eq!(read(&metadata_with(&member)).unwrap(), "/w");
    }
}

#[test]
fn a_long_integer_is_left_to_the_parser() {
    let member = fraction(b"1", 40000, b"");
    assert!(fractions_are_short(&metadata_with(&member)));
    assert!(matches!(read(&metadata_with(&member)), Err(ReleaseError::Metadata { .. })));
}

#[test]
fn a_zero_fraction_at_the_limit_is_read() {
    for lead in [b"0.".as_slice(), b"-0.".as_slice()] {
        let member = fraction(lead, FRACTION_LIMIT, b"");
        assert_eq!(read(&metadata_with(&member)).unwrap(), "/w");
        let member = fraction(lead, FRACTION_LIMIT - 1, b"5");
        assert_eq!(read(&metadata_with(&member)).unwrap(), "/w");
        let member = fraction(lead, FRACTION_LIMIT - 1, b"5e-9");
        assert_eq!(read(&metadata_with(&member)).unwrap(), "/w");
    }
}

#[test]
fn a_zero_fraction_beyond_the_limit_is_refused() {
    for lead in [b"0.".as_slice(), b"-0.".as_slice()] {
        for member in [
            fraction(lead, FRACTION_LIMIT + 1, b""),
            fraction(lead, FRACTION_LIMIT, b"5"),
            fraction(lead, 40000, b"e5"),
        ] {
            match read(&metadata_with(&member)) {
                Err(ReleaseError::Metadata { detail }) => {
                    assert_eq!(detail, "Fraction with too many digits")
                }
                other => panic!("{:?}", other),
            }
        }
    }
}

#[test]
fn digits_that_the_mantissa_passes_over_do_not_count() {
    // Nineteen digits fill the mantissa; the `9` does not fit and is passed over, the
    // `5` after it fits again: twenty digits are taken in.
    let tail = b"184467440737095516195";
    let member = fraction(b"0.", FRACTION_LIMIT - 20, tail);
    assert!(fractions_are_short(&metadata_with(&member)));
    assert_eq!(read(&metadata_with(&member)).unwrap(), "/w");
    let member = fraction(b"0.", FRACTION_LIMIT - 19, tail);
    assert!(!fractions_are_short(&metadata_with(&member)));
    // Nineteen nines are taken in, every later digit is passed over.
    let tail = vec![b'9'; 5000];
    let member = fraction(b"0.", FRACTION_LIMIT - 19, &tail);
    assert!(fractions_are_short(&metadata_with(&member)));
    assert_eq!(read(&metadata_with(&member)).unwrap(), "/w");
    let member = fraction(b"0.", FRACTION_LIMIT - 18, &tail);
    assert!(!fractions_are_short(&metadata_with(&member)));
}

#[test]
fn fractions_are_short_in_ordinary_texts() {
    assert!(fractions_are_short(b""));
    assert!(fractions_are_short(b"0."));
    assert!(fractions_are_short(b"\"unfinished 0.000"));
    assert!(fractions_are_short(b"{\"a\": 0.25, \"b\": [0.0, -0.5, 10.001]}"));
    assert!(fractions_are_short(&vec![b'0'; 100000]));
}

#[test]
fn a_string_ends_at_the_first_quote_that_is_not_escaped() {
    let mut bytes = b"[\"a\\\\\", ".to_vec();
    bytes.extend(fraction(b"0.", FRACTION_LIMIT + 1, b"]"));
    assert!(!fractions_are_short(&bytes));
    let mut bytes = b"[\"a\\\", ".to_vec();
    bytes.extend(fraction(b"0.", FRACTION_LIMIT + 1, b"\"]"));
    assert!(fractions_are_short(&bytes));
}
