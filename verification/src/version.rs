use crate::error::ReleaseError;
use vstd::prelude::*;
use vstd::string::StrSliceExecFns;

verus! {

/// `semver::SemVerError`, carried through unread.
#[verifier::external_type_specification]
#[verifier::external_body]
pub struct ExSemVerError(semver::SemVerError);

/// One dot-separated part of a pre-release tag or of build metadata.
#[derive(Clone, Debug, PartialEq, Eq)]
pub enum Identifier {
    /// A part made of digits only, without a leading zero.
    Numeric(u64),
    /// Any other part.
    AlphaNumeric(String),
}

/// What an [`Identifier`] stands for.
pub enum IdentifierView {
    Numeric(nat),
    AlphaNumeric(Seq<char>),
}

impl View for Identifier {
    type V = IdentifierView;

    open spec fn view(&self) -> IdentifierView {
        match self {
            Identifier::Numeric(n) => IdentifierView::Numeric(*n as nat),
            Identifier::AlphaNumeric(s) => IdentifierView::AlphaNumeric(s@),
        }
    }
}

/// A semantic version: `major.minor.patch[-pre][+build]`.
#[derive(Clone, Debug, PartialEq, Eq)]
pub struct Version {
    pub major: u64,
    pub minor: u64,
    pub patch: u64,
    pub pre: Vec<Identifier>,
    pub build: Vec<Identifier>,
}

/// What a [`Version`] stands for.
pub struct VersionView {
    pub major: nat,
    pub minor: nat,
    pub patch: nat,
    pub pre: Seq<IdentifierView>,
    pub build: Seq<IdentifierView>,
}

/// What a list of identifiers stands for.
pub open spec fn identifier_views(ids: Seq<Identifier>) -> Seq<IdentifierView> {
    ids.map_values(|i: Identifier| i@)
}

impl View for Version {
    type V = VersionView;

    open spec fn view(&self) -> VersionView {
        VersionView {
            major: self.major as nat,
            minor: self.minor as nat,
            patch: self.patch as nat,
            pre: identifier_views(self.pre@),
            build: identifier_views(self.build@),
        }
    }
}

/// The characters an identifier is made of: ASCII letters, digits and the hyphen.
pub open spec fn is_identifier_char(c: char) -> bool {
    ||| '0' <= c <= '9'
    ||| 'a' <= c <= 'z'
    ||| 'A' <= c <= 'Z'
    ||| c == '-'
}

/// A text made of identifier characters only.
pub open spec fn is_identifier_text(text: Seq<char>) -> bool {
    forall|i: int| 0 <= i < text.len() ==> is_identifier_char(#[trigger] text[i])
}

/// The decimal digit for `d`, where `d < 10`.
pub open spec fn digit(d: nat) -> char {
    (('0' as u8) + d) as u8 as char
}

/// `n` in decimal, without leading zeros.
pub open spec fn decimal(n: nat) -> Seq<char>
    decreases n,
{
    if n < 10 {
        seq![digit(n)]
    } else {
        decimal(n / 10).push(digit(n % 10))
    }
}

impl IdentifierView {
    pub open spec fn wf(self) -> bool {
        match self {
            IdentifierView::Numeric(n) => n <= u64::MAX,
            IdentifierView::AlphaNumeric(s) => is_identifier_text(s),
        }
    }

    /// The identifier as it is written.
    pub open spec fn text(self) -> Seq<char> {
        match self {
            IdentifierView::Numeric(n) => decimal(n),
            IdentifierView::AlphaNumeric(s) => s,
        }
    }
}

/// The identifiers as they are written, with a dot between neighbours.
pub open spec fn dotted(ids: Seq<IdentifierView>) -> Seq<char>
    decreases ids.len(),
{
    if ids.len() == 0 {
        Seq::empty()
    } else if ids.len() == 1 {
        ids[0].text()
    } else {
        dotted(ids.drop_last()) + seq!['.'] + ids.last().text()
    }
}

impl VersionView {
    /// Every identifier is made of identifier characters and every number fits 64 bits.
    pub open spec fn wf(self) -> bool {
        &&& self.major <= u64::MAX
        &&& self.minor <= u64::MAX
        &&& self.patch <= u64::MAX
        &&& forall|i: int| 0 <= i < self.pre.len() ==> (#[trigger] self.pre[i]).wf()
        &&& forall|i: int| 0 <= i < self.build.len() ==> (#[trigger] self.build[i]).wf()
    }

    /// The parser reads the text of the version as this version. This holds of every
    /// version that the parser returns; it fails of a version built by hand whose
    /// text reads as another, such as one with the alphanumeric identifier `1`.
    pub open spec fn reads_back(self) -> bool {
        semver_parse(self.text()) == Some(self)
    }

    /// A version without tags: neither a pre-release tag nor build metadata.
    pub open spec fn is_plain(self) -> bool {
        self.pre.len() == 0 && self.build.len() == 0
    }

    /// A version is a pre-release when it carries a pre-release tag.
    pub open spec fn is_prerelease(self) -> bool {
        self.pre.len() > 0
    }

    /// The next minor release: minor plus one, patch zero, no tags.
    pub open spec fn next_minor(self) -> VersionView {
        VersionView {
            major: self.major,
            minor: self.minor + 1,
            patch: 0,
            pre: Seq::empty(),
            build: Seq::empty(),
        }
    }

    /// The canonical text of the version.
    pub open spec fn text(self) -> Seq<char> {
        decimal(self.major) + seq!['.'] + decimal(self.minor) + seq!['.'] + decimal(self.patch)
            + (if self.pre.len() > 0 {
            seq!['-'] + dotted(self.pre)
        } else {
            Seq::empty()
        }) + (if self.build.len() > 0 {
            seq!['+'] + dotted(self.build)
        } else {
            Seq::empty()
        })
    }
}

/// The next minor release of a pre-release keeps the major number, has the minor number
/// one higher and the patch number zero, and is no pre-release itself.
pub proof fn next_minor_of_prerelease(v: VersionView)
    requires
        v.is_prerelease(),
    ensures
        v.next_minor().major == v.major,
        v.next_minor().minor == v.minor + 1,
        v.next_minor().patch == 0,
        v.next_minor().pre.len() == 0,
        v.next_minor().build.len() == 0,
        !v.next_minor().is_prerelease(),
{
}

/// The characters a version's text is made of: identifier characters, `.` and `+`.
pub open spec fn is_version_char(c: char) -> bool {
    is_identifier_char(c) || c == '.' || c == '+'
}

/// A text made of version characters only.
pub open spec fn is_version_text(text: Seq<char>) -> bool {
    forall|i: int| 0 <= i < text.len() ==> is_version_char(#[trigger] text[i])
}

proof fn lemma_decimal_is_version_text(n: nat)
    requires
        n <= u64::MAX,
    ensures
        is_version_text(decimal(n)),
        decimal(n).len() > 0,
    decreases n,
{
    if n >= 10 {
        lemma_decimal_is_version_text(n / 10);
    }
}

proof fn lemma_dotted_is_version_text(ids: Seq<IdentifierView>)
    requires
        forall|i: int| 0 <= i < ids.len() ==> (#[trigger] ids[i]).wf(),
    ensures
        is_version_text(dotted(ids)),
    decreases ids.len(),
{
    if ids.len() > 0 {
        let last = ids.last();
        assert(last.wf());
        match last {
            IdentifierView::Numeric(n) => lemma_decimal_is_version_text(n),
            IdentifierView::AlphaNumeric(_) => {},
        }
        if ids.len() > 1 {
            lemma_dotted_is_version_text(ids.drop_last());
        }
    }
}

/// The text of a well-formed version holds version characters only, and is not empty.
pub proof fn lemma_text_is_version_text(v: VersionView)
    requires
        v.wf(),
    ensures
        is_version_text(v.text()),
        v.text().len() > 0,
{
    lemma_decimal_is_version_text(v.major);
    lemma_decimal_is_version_text(v.minor);
    lemma_decimal_is_version_text(v.patch);
    lemma_dotted_is_version_text(v.pre);
    lemma_dotted_is_version_text(v.build);
}

/// What `semver::Version::parse` reads from a text, or `None` where it rejects the text.
pub uninterp spec fn semver_parse(text: Seq<char>) -> Option<VersionView>;

/// `semver::Version::parse`, with the parsed version copied field by field.
///
/// Trusted: the outcome depends on the text alone, and the parser only lets letters,
/// digits and hyphens into an identifier. The parser reads the text of a version that
/// it returned as that version again: it takes numbers without leading zeros only and
/// keeps the identifiers as they stand between the dots, so that text is the input
/// without the white space around it.
#[verifier::external_body]
fn parse_semver(text: &str) -> (r: Result<Version, semver::SemVerError>)
    ensures
        r is Ok <==> semver_parse(text@) is Some,
        r matches Ok(v) ==> semver_parse(text@) == Some(v@) && v.wf() && v@.reads_back(),
{
    let convert = |i| match i {
        semver::Identifier::Numeric(n) => Identifier::Numeric(n),
        semver::Identifier::AlphaNumeric(s) => Identifier::AlphaNumeric(s),
    };
    let v = semver::Version::parse(text)?;
    let pre = v.pre.into_iter().map(convert).collect();
    let build = v.build.into_iter().map(convert).collect();
    Ok(Version { major: v.major, minor: v.minor, patch: v.patch, pre, build })
}

/// The `Display` text of a `semver::SemVerError`. Nothing is claimed of it.
#[verifier::external_body]
fn semver_error_text(error: &semver::SemVerError) -> String {
    error.to_string()
}

/// The `Display` text of the `semver::Version` with the same fields.
///
/// Trusted: `semver` writes the three numbers in decimal with dots between them, then
/// `-` and the pre-release identifiers, then `+` and the build identifiers, each list
/// dot-separated and left out when empty. What it writes for a version without tags,
/// three decimal numbers with two dots, its parser reads back as that version.
#[verifier::external_body]
fn semver_text(v: &Version) -> (text: String)
    ensures
        text@ == v@.text(),
        v@.is_plain() ==> semver_parse(text@) == Some(v@),
{
    let convert = |i: &Identifier| match i {
        Identifier::Numeric(n) => semver::Identifier::Numeric(*n),
        Identifier::AlphaNumeric(s) => semver::Identifier::AlphaNumeric(s.clone()),
    };
    let pre = v.pre.iter().map(convert).collect();
    let build = v.build.iter().map(convert).collect();
    semver::Version { major: v.major, minor: v.minor, patch: v.patch, pre, build }.to_string()
}

/// Whether `text` is made of identifier characters only.
fn holds_identifier_chars(text: &str) -> (r: bool)
    ensures
        r == is_identifier_text(text@),
{
    let n = text.unicode_len();
    let mut i: usize = 0;
    while i < n
        invariant
            n == text@.len(),
            i <= n,
            forall|j: int| 0 <= j < i ==> is_identifier_char(#[trigger] text@[j]),
        decreases n - i,
    {
        let c = text.get_char(i);
        let ok = ('0' <= c && c <= '9') || ('a' <= c && c <= 'z') || ('A' <= c && c <= 'Z') || c
            == '-';
        if !ok {
            assert(!is_identifier_char(text@[i as int]));
            return false;
        }
        i = i + 1;
    }
    true
}

/// Whether every identifier of the list is well formed.
fn identifiers_are_well_formed(ids: &Vec<Identifier>) -> (r: bool)
    ensures
        r == forall|i: int|
            0 <= i < ids.len() ==> (#[trigger] identifier_views(ids@)[i]).wf(),
{
    let mut i: usize = 0;
    while i < ids.len()
        invariant
            i <= ids.len(),
            forall|j: int| 0 <= j < i ==> (#[trigger] identifier_views(ids@)[j]).wf(),
        decreases ids.len() - i,
    {
        let ok = match &ids[i] {
            Identifier::Numeric(_) => true,
            Identifier::AlphaNumeric(text) => holds_identifier_chars(text.as_str()),
        };
        if !ok {
            assert(!identifier_views(ids@)[i as int].wf());
            return false;
        }
        assert(identifier_views(ids@)[i as int].wf());
        i = i + 1;
    }
    true
}

impl Version {
    pub open spec fn wf(&self) -> bool {
        self@.wf()
    }

    /// The version `major.minor.patch` without tags.
    pub fn new(major: u64, minor: u64, patch: u64) -> (v: Version)
        ensures
            v@ == (VersionView {
                major: major as nat,
                minor: minor as nat,
                patch: patch as nat,
                pre: Seq::empty(),
                build: Seq::empty(),
            }),
            v.wf(),
    {
        let v = Version { major, minor, patch, pre: Vec::new(), build: Vec::new() };
        proof {
            assert(v@.pre =~= Seq::empty());
            assert(v@.build =~= Seq::empty());
        }
        v
    }

    /// Whether every identifier of the version is made of identifier characters.
    pub fn is_well_formed(&self) -> (r: bool)
        ensures
            r == self.wf(),
    {
        proof {
            assert(self@.pre.len() == self.pre.len());
            assert(self@.build.len() == self.build.len());
        }
        identifiers_are_well_formed(&self.pre) && identifiers_are_well_formed(&self.build)
    }

    /// Reads a version from its text.
    pub fn parse(text: &str) -> (r: Result<Version, ReleaseError>)
        ensures
            r is Ok <==> semver_parse(text@) is Some,
            r matches Ok(v) ==> semver_parse(text@) == Some(v@) && v.wf() && v@.reads_back(),
            r matches Err(e) ==> e is Version,
    {
        match parse_semver(text) {
            Ok(v) => Ok(v),
            Err(error) => Err(ReleaseError::Version { detail: semver_error_text(&error) }),
        }
    }

    /// The canonical text of the version.
    pub fn to_text(&self) -> (text: String)
        ensures
            text@ == self@.text(),
            self@.is_plain() ==> self@.reads_back(),
    {
        semver_text(self)
    }

    pub fn is_prerelease(&self) -> (r: bool)
        ensures
            r == self@.is_prerelease(),
    {
        self.pre.len() > 0
    }

    /// Moves to the next minor release in place.
    pub fn increment_minor(&mut self)
        requires
            old(self).minor < u64::MAX,
        ensures
            final(self)@ == old(self)@.next_minor(),
            final(self).wf(),
    {
        self.minor = self.minor + 1;
        self.patch = 0;
        self.pre = Vec::new();
        self.build = Vec::new();
        proof {
            assert(self@.pre =~= Seq::empty());
            assert(self@.build =~= Seq::empty());
        }
    }
}

} // verus!
