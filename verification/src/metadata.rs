use crate::command::check_exit;
use crate::error::ReleaseError;
use vstd::prelude::*;
use vstd::string::StringExecFns;
use vstd::string::StringSliceAdditionalSpecFns;
use vstd::utf8::{decode_utf8, encode_utf8_decode_utf8, valid_utf8};

verus! {

/// `json::JsonValue`, known only through [`json_strings`].
#[verifier::external_type_specification]
#[verifier::external_body]
pub struct ExJsonValue(json::JsonValue);

/// `json::Error`, carried through unread.
#[verifier::external_type_specification]
#[verifier::external_body]
pub struct ExJsonError(json::Error);

/// `core::str::Utf8Error`, carried through unread.
#[verifier::external_type_specification]
#[verifier::external_body]
pub struct ExUtf8Error(core::str::Utf8Error);

/// The lowest that the JSON parser's decimal exponent can go is this far below zero.
pub const FRACTION_LIMIT: usize = 32768;

/// An ASCII digit.
pub open spec fn is_digit(byte: u8) -> bool {
    48 <= byte <= 57
}

/// How many of the digits that start at `from` a mantissa takes in, one after the
/// other: a digit is taken in where ten times the mantissa plus the digit still fits
/// 64 bits, and is passed over where it does not.
pub open spec fn absorbed(bytes: Seq<u8>, from: int, mantissa: nat) -> nat
    decreases bytes.len() - from,
{
    if 0 <= from < bytes.len() && is_digit(bytes[from]) {
        let next = mantissa * 10 + (bytes[from] - 48);
        if next <= u64::MAX {
            1 + absorbed(bytes, from + 1, next as nat)
        } else {
            absorbed(bytes, from + 1, mantissa)
        }
    } else {
        0
    }
}

/// At `at` stands a `0` that no digit precedes, with a `.` behind it: where this is
/// outside a string, a number with the integer part zero and a fraction starts here.
pub open spec fn starts_zero_fraction(bytes: Seq<u8>, at: int) -> bool {
    &&& 0 <= at
    &&& at + 1 < bytes.len()
    &&& bytes[at] == 48
    &&& bytes[at + 1] == 46
    &&& (at == 0 || !is_digit(bytes[at - 1]))
}

/// From `at` on, no number outside a string has the integer part zero and a fraction
/// of which more than `limit` digits are taken into the mantissa. A string runs from
/// one `"` to the next that no backslash escapes; `in_string` and `escaped` say where
/// the scan stands at `at`.
pub open spec fn fractions_within_from(
    bytes: Seq<u8>,
    at: int,
    in_string: bool,
    escaped: bool,
    limit: int,
) -> bool
    decreases bytes.len() - at,
{
    if at < 0 || at >= bytes.len() {
        true
    } else if in_string {
        if escaped {
            fractions_within_from(bytes, at + 1, true, false, limit)
        } else if bytes[at] == 92 {
            fractions_within_from(bytes, at + 1, true, true, limit)
        } else if bytes[at] == 34 {
            fractions_within_from(bytes, at + 1, false, false, limit)
        } else {
            fractions_within_from(bytes, at + 1, true, false, limit)
        }
    } else if bytes[at] == 34 {
        fractions_within_from(bytes, at + 1, true, false, limit)
    } else if starts_zero_fraction(bytes, at) && absorbed(bytes, at + 2, 0) > limit {
        false
    } else {
        fractions_within_from(bytes, at + 1, false, false, limit)
    }
}

/// No number outside a string in `bytes` has the integer part zero and a fraction of
/// which more than `limit` digits are taken into the mantissa.
pub open spec fn fractions_within(bytes: Seq<u8>, limit: int) -> bool {
    fractions_within_from(bytes, 0, false, false, limit)
}

/// The value `json::parse` reads from a text, or `None` where it rejects the text.
pub uninterp spec fn json_parse(text: Seq<char>) -> Option<json::JsonValue>;

/// The string members of a JSON value: `key` is in the map exactly when `value[key]`
/// is a string, and is mapped to that string.
pub uninterp spec fn json_strings(value: json::JsonValue) -> Map<Seq<char>, Seq<char>>;

/// `core::str::from_utf8`.
///
/// Trusted: it accepts exactly the well-formed UTF-8 byte strings, and the string it
/// returns is made of the bytes it was given.
#[verifier::external_body]
fn utf8_text(bytes: &[u8]) -> (r: Result<&str, core::str::Utf8Error>)
    ensures
        r is Ok <==> valid_utf8(bytes@),
        r matches Ok(text) ==> text.spec_bytes() == bytes@,
{
    core::str::from_utf8(bytes)
}

/// The `Display` text of a `core::str::Utf8Error`. Nothing is claimed of it.
#[verifier::external_body]
fn utf8_error_text(error: &core::str::Utf8Error) -> String {
    error.to_string()
}

/// `json::parse`.
///
/// Trusted: the outcome depends on the text alone. For each digit of a fraction that
/// the parser takes into its 64-bit mantissa it counts a 16-bit exponent down by one,
/// without a test. After a non-zero integer part the mantissa is full within twenty
/// digits; after the integer part zero it stays zero through any number of zeros. So
/// a text is left out where such a fraction has more than [`FRACTION_LIMIT`] digits
/// taken in. Digits inside a string are not counted by the parser at all.
#[verifier::external_body]
fn parse_json(text: &str) -> (r: Result<json::JsonValue, json::Error>)
    requires
        fractions_within(text.spec_bytes(), FRACTION_LIMIT as int),
    ensures
        r is Ok <==> json_parse(text@) is Some,
        r matches Ok(value) ==> json_parse(text@) == Some(value),
{
    json::parse(text)
}

/// The `Display` text of a `json::Error`. Nothing is claimed of it.
#[verifier::external_body]
fn json_error_text(error: &json::Error) -> String {
    error.to_string()
}

/// `value[key].as_str()`, copied into a `String`.
///
/// Trusted: indexing never fails; it yields null where `value` is no object or has no
/// such member, and `as_str` is `Some` for a string only.
#[verifier::external_body]
fn member_string(value: &json::JsonValue, key: &str) -> (r: Option<String>)
    ensures
        r is Some <==> json_strings(*value).contains_key(key@),
        r matches Some(s) ==> json_strings(*value)[key@] == s@,
{
    value[key].as_str().map(|s| s.to_owned())
}

/// How the outcome of the metadata command is read: a command that failed gives no
/// root, whatever it printed; the output of one that succeeded is read as UTF-8, then
/// as JSON, then for its string member `workspace_root`. Output with a number that
/// the JSON parser cannot hold (see [`fractions_within`]) is not taken for JSON.
pub open spec fn reads_workspace_root(
    success: bool,
    status: Seq<char>,
    stdout: Seq<u8>,
    r: Result<String, ReleaseError>,
) -> bool {
    if !success {
        &&& r matches Err(ReleaseError::CommandFailed { command, status: shown })
        &&& command@ == "cargo metadata"@
        &&& shown@ == status
    } else if !valid_utf8(stdout) {
        r matches Err(ReleaseError::InvalidUtf8 { .. })
    } else if !fractions_within(stdout, FRACTION_LIMIT as int) {
        r matches Err(ReleaseError::Metadata { .. })
    } else {
        match json_parse(decode_utf8(stdout)) {
            None => r matches Err(ReleaseError::Metadata { .. }),
            Some(value) => if json_strings(value).contains_key("workspace_root"@) {
                r matches Ok(root) && root@ == json_strings(value)["workspace_root"@]
            } else {
                r matches Err(ReleaseError::MissingWorkspaceRoot)
            },
        }
    }
}

/// How many of the digits that start at `from` a mantissa of zero takes in.
fn absorbed_digits(bytes: &[u8], from: usize) -> (count: usize)
    requires
        from <= bytes.len(),
    ensures
        count == absorbed(bytes@, from as int, 0),
{
    let mut at: usize = from;
    let mut mantissa: u64 = 0;
    let mut count: usize = 0;
    while at < bytes.len() && 48 <= bytes[at] && bytes[at] <= 57
        invariant
            from <= at <= bytes.len(),
            count <= at - from,
            absorbed(bytes@, from as int, 0) == count + absorbed(bytes@, at as int, mantissa as nat),
        decreases bytes.len() - at,
    {
        let digit: u64 = (bytes[at] - 48) as u64;
        if mantissa <= (u64::MAX - digit) / 10 {
            mantissa = mantissa * 10 + digit;
            count = count + 1;
        }
        at = at + 1;
    }
    count
}

/// Whether no number outside a string in `bytes` has the integer part zero and a
/// fraction of which more than [`FRACTION_LIMIT`] digits are taken into the mantissa.
pub fn fractions_are_short(bytes: &[u8]) -> (r: bool)
    ensures
        r == fractions_within(bytes@, FRACTION_LIMIT as int),
{
    let mut at: usize = 0;
    let mut in_string = false;
    let mut escaped = false;
    while at < bytes.len()
        invariant
            at <= bytes.len(),
            escaped ==> in_string,
            fractions_within(bytes@, FRACTION_LIMIT as int) == fractions_within_from(
                bytes@,
                at as int,
                in_string,
                escaped,
                FRACTION_LIMIT as int,
            ),
        decreases bytes.len() - at,
    {
        let byte = bytes[at];
        if in_string {
            if escaped {
                escaped = false;
            } else if byte == 92 {
                escaped = true;
            } else if byte == 34 {
                in_string = false;
            }
        } else if byte == 34 {
            in_string = true;
        } else {
            let starts = byte == 48 && at + 1 < bytes.len() && bytes[at + 1] == 46 && (at == 0
                || !(48 <= bytes[at - 1] && bytes[at - 1] <= 57));
            assert(starts == starts_zero_fraction(bytes@, at as int));
            if starts && absorbed_digits(bytes, at + 2) > FRACTION_LIMIT {
                return false;
            }
        }
        at = at + 1;
    }
    true
}

/// The workspace root that the metadata command reported, where it succeeded.
pub fn workspace_root(success: bool, status: &str, stdout: &[u8]) -> (r: Result<
    String,
    ReleaseError,
>)
    ensures
        reads_workspace_root(success, status@, stdout@, r),
{
    match check_exit("cargo metadata", success, status) {
        Ok(()) => {},
        Err(error) => {
            return Err(error);
        },
    }
    let text = match utf8_text(stdout) {
        Ok(text) => text,
        Err(error) => {
            return Err(ReleaseError::InvalidUtf8 { detail: utf8_error_text(&error) });
        },
    };
    proof {
        encode_utf8_decode_utf8(text@);
    }
    if !fractions_are_short(stdout) {
        return Err(
            ReleaseError::Metadata { detail: String::from_str("Fraction with too many digits") },
        );
    }
    let value = match parse_json(text) {
        Ok(value) => value,
        Err(error) => {
            return Err(ReleaseError::Metadata { detail: json_error_text(&error) });
        },
    };
    match member_string(&value, "workspace_root") {
        Some(root) => Ok(root),
        None => Err(ReleaseError::MissingWorkspaceRoot),
    }
}

} // verus!
