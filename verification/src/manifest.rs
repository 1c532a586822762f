use crate::error::ReleaseError;
use crate::version::{
    is_version_text, lemma_text_is_version_text, semver_parse, Version, VersionView,
};
use vstd::prelude::*;

verus! {

/// `toml_edit::Document`, known only through [`document_strings`] and [`document_text`].
#[verifier::external_type_specification]
#[verifier::external_body]
pub struct ExDocument(toml_edit::Document);

/// `toml_edit::TomlError`, carried through unread.
#[verifier::external_type_specification]
#[verifier::external_body]
pub struct ExTomlError(toml_edit::TomlError);

/// The strings of a document: `(table, key)` is in the map exactly when
/// `doc[table][key]` is a string, and is mapped to that string.
pub uninterp spec fn document_strings(doc: toml_edit::Document) -> Map<
    (Seq<char>, Seq<char>),
    Seq<char>,
>;

/// The text a document is written as.
pub uninterp spec fn document_text(doc: toml_edit::Document) -> Seq<char>;

/// Whether the root of a document is a table, as it is in every document that was read
/// from a text. The root is a public field, so a document can be made whose root is
/// something else; such a document cannot be written out.
pub uninterp spec fn has_table_root(doc: toml_edit::Document) -> bool;

/// The document `toml_edit` reads from a text, or `None` where it rejects the text.
pub uninterp spec fn toml_parse(text: Seq<char>) -> Option<toml_edit::Document>;

/// A key that TOML accepts without quotes: letters, digits, `-` and `_`, at least one.
pub open spec fn is_bare_key(key: Seq<char>) -> bool {
    &&& key.len() > 0
    &&& forall|i: int|
        0 <= i < key.len() ==> {
            let c = #[trigger] key[i];
            ||| 'A' <= c <= 'Z'
            ||| 'a' <= c <= 'z'
            ||| '0' <= c <= '9'
            ||| c == '-'
            ||| c == '_'
        }
}

/// `str::parse::<toml_edit::Document>`.
///
/// Trusted: the outcome depends on the text alone, and the root of a parsed document
/// is a table.
#[verifier::external_body]
fn parse_document(text: &str) -> (r: Result<toml_edit::Document, toml_edit::TomlError>)
    ensures
        r is Ok <==> toml_parse(text@) is Some,
        r matches Ok(doc) ==> toml_parse(text@) == Some(doc) && has_table_root(doc),
{
    text.parse::<toml_edit::Document>()
}

/// The `Display` text of a `toml_edit::TomlError`. Nothing is claimed of it.
#[verifier::external_body]
fn toml_error_text(error: &toml_edit::TomlError) -> String {
    error.to_string()
}

/// The `Display` text of a `toml_edit::Document`.
///
/// Trusted: `Display` takes the root to be a table and panics where it is none, so
/// such a document is left out.
#[verifier::external_body]
fn render_document(doc: &toml_edit::Document) -> (text: String)
    requires
        has_table_root(*doc),
    ensures
        text@ == document_text(*doc),
{
    doc.to_string()
}

/// `doc[table][key].as_str()`, copied into a `String`.
///
/// Trusted: indexing never fails; it yields an empty item where the table or the key is
/// missing, and `as_str` is `Some` for a string value only.
#[verifier::external_body]
fn string_at(doc: &toml_edit::Document, table: &str, key: &str) -> (r: Option<String>)
    ensures
        r is Some <==> document_strings(*doc).contains_key((table@, key@)),
        r matches Some(s) ==> document_strings(*doc)[(table@, key@)] == s@,
{
    doc[table][key].as_str().map(|s| s.to_owned())
}

/// `doc[table][key] = toml_edit::value(text)`.
///
/// Trusted: where a string is already stored under bare keys, the assignment replaces
/// that one value and leaves every other entry alone, the root included, and a text of
/// version characters is stored as it stands (it needs no escaping).
#[verifier::external_body]
fn put_string(doc: &mut toml_edit::Document, table: &str, key: &str, text: &str)
    requires
        is_bare_key(table@),
        is_bare_key(key@),
        is_version_text(text@),
        document_strings(*old(doc)).contains_key((table@, key@)),
    ensures
        document_strings(*final(doc)) == document_strings(*old(doc)).insert(
            (table@, key@),
            text@,
        ),
        has_table_root(*old(doc)) ==> has_table_root(*final(doc)),
{
    doc[table][key] = toml_edit::value(text);
}

/// Where the package's name is kept.
pub open spec fn name_key() -> (Seq<char>, Seq<char>) {
    ("package"@, "name"@)
}

/// Where the package's version is kept.
pub open spec fn version_key() -> (Seq<char>, Seq<char>) {
    ("package"@, "version"@)
}

/// The package name of a manifest, if it has one.
pub open spec fn package_name_of(doc: toml_edit::Document) -> Option<Seq<char>> {
    if document_strings(doc).contains_key(name_key()) {
        Some(document_strings(doc)[name_key()])
    } else {
        None
    }
}

/// The version string of a manifest, if it has one.
pub open spec fn version_text_of(doc: toml_edit::Document) -> Option<Seq<char>> {
    if document_strings(doc).contains_key(version_key()) {
        Some(document_strings(doc)[version_key()])
    } else {
        None
    }
}

/// The version of a manifest, if it has a version string that is a semantic version.
pub open spec fn version_of(doc: toml_edit::Document) -> Option<VersionView> {
    match version_text_of(doc) {
        Some(text) => semver_parse(text),
        None => None,
    }
}

/// Reads a manifest from its text.
pub fn parse_manifest(text: &str) -> (r: Result<toml_edit::Document, ReleaseError>)
    ensures
        r is Ok <==> toml_parse(text@) is Some,
        r matches Ok(doc) ==> toml_parse(text@) == Some(doc) && has_table_root(doc),
        r matches Err(e) ==> e is Manifest,
{
    match parse_document(text) {
        Ok(doc) => Ok(doc),
        Err(error) => Err(ReleaseError::Manifest { detail: toml_error_text(&error) }),
    }
}

/// Writes a manifest out as text.
pub fn render_manifest(doc: &toml_edit::Document) -> (text: String)
    requires
        has_table_root(*doc),
    ensures
        text@ == document_text(*doc),
{
    render_document(doc)
}

/// The package's name.
pub fn package_name(doc: &toml_edit::Document) -> (r: Result<String, ReleaseError>)
    ensures
        match package_name_of(*doc) {
            Some(name) => r matches Ok(s) && s@ == name,
            None => r matches Err(ReleaseError::PackageNameMissing),
        },
{
    match string_at(doc, "package", "name") {
        Some(name) => Ok(name),
        None => Err(ReleaseError::PackageNameMissing),
    }
}

/// The package's version.
pub fn get_version(doc: &toml_edit::Document) -> (r: Result<Version, ReleaseError>)
    ensures
        r is Ok <==> version_of(*doc) is Some,
        r matches Ok(v) ==> version_of(*doc) == Some(v@) && v.wf() && v@.reads_back(),
        r matches Err(e) ==> if version_text_of(*doc) is None {
            e is VersionMissing
        } else {
            e is Version
        },
{
    match string_at(doc, "package", "version") {
        Some(text) => Version::parse(text.as_str()),
        None => Err(ReleaseError::VersionMissing),
    }
}

/// Overwrites the package's version with the canonical text of `version`.
pub fn set_version(doc: &mut toml_edit::Document, version: &Version)
    requires
        version.wf(),
        version_text_of(*old(doc)) is Some,
    ensures
        document_strings(*final(doc)) == document_strings(*old(doc)).insert(
            version_key(),
            version@.text(),
        ),
        version_of(*final(doc)) == semver_parse(version@.text()),
        version@.is_plain() || version@.reads_back() ==> version_of(*final(doc)) == Some(
            version@,
        ),
        has_table_root(*old(doc)) ==> has_table_root(*final(doc)),
{
    let text = version.to_text();
    proof {
        lemma_text_is_version_text(version@);
        reveal_strlit("package");
        reveal_strlit("version");
    }
    put_string(doc, "package", "version", text.as_str());
}

/// Reading the version back after `set_version` gives the version that was set,
/// whenever the parser reads the text of that version as it: so for every version
/// that `Version::parse` or `get_version` returned, and for every version without
/// tags. In general it gives what the parser reads from the text of that version.
pub proof fn set_version_then_get_version(
    before: toml_edit::Document,
    after: toml_edit::Document,
    version: VersionView,
)
    requires
        document_strings(after) == document_strings(before).insert(version_key(), version.text()),
    ensures
        version_text_of(after) == Some(version.text()),
        version_of(after) == semver_parse(version.text()),
        version.reads_back() ==> version_of(after) == Some(version),
{
}

} // verus!
