//! npm version ranges and semantic versions, read and compared by the
//! `node_semver` crate.
use vstd::prelude::*;

use crate::error::CheckError;

verus! {

#[verifier::external_type_specification]
#[verifier::external_body]
pub struct ExRange(node_semver::Range);

#[verifier::external_type_specification]
#[verifier::external_body]
pub struct ExSemverVersion(node_semver::Version);

#[verifier::external_type_specification]
#[verifier::external_body]
pub struct ExSemverError(node_semver::SemverError);

/// Whether `node_semver::Range::parse` accepts the text.
pub uninterp spec fn is_range_text(text: Seq<char>) -> bool;

/// Whether `node_semver::Version::parse` accepts the text.
pub uninterp spec fn is_version_text(text: Seq<char>) -> bool;

/// What `node_semver::Range::satisfies` answers for the range read from
/// `range` and the version read from `version`.
pub uninterp spec fn range_admits(range: Seq<char>, version: Seq<char>) -> bool;

/// The text that `node_semver::Version`'s `Display` writes for the version
/// read from `version`.
pub uninterp spec fn version_text_of(version: Seq<char>) -> Seq<char>;

/// A version constraint: its text together with the range read from it.
/// Values of this type are made only by `read_range`, so `range` is always
/// what `node_semver` reads from `text`.
#[derive(Debug)]
pub struct Constraint {
    text: String,
    range: node_semver::Range,
}

/// A semantic version: its text together with the version read from it.
/// Values of this type are made only by `read_version`, so `parsed` is
/// always what `node_semver` reads from `text`.
#[derive(Debug)]
pub struct SemVersion {
    text: String,
    parsed: node_semver::Version,
}

impl View for Constraint {
    type V = Seq<char>;

    closed spec fn view(&self) -> Seq<char> {
        self.text@
    }
}

impl View for SemVersion {
    type V = Seq<char>;

    closed spec fn view(&self) -> Seq<char> {
        self.text@
    }
}

pub open spec fn is_wildcard(c: char) -> bool {
    c == '*' || c == 'x' || c == 'X'
}

pub open spec fn is_digit(c: char) -> bool {
    '0' <= c && c <= '9'
}

/// What may stand between an operator and the major component: blanks,
/// the `>` of `~>`, the `v` prefix.
pub open spec fn is_filler(c: char) -> bool {
    c == ' ' || c == '\t' || c == '>' || c == 'v'
}

/// The first position at or after `i` that holds no filler.
pub open spec fn skip_filler(s: Seq<char>, i: int) -> int
    decreases s.len() - i,
{
    if 0 <= i < s.len() && is_filler(s[i]) {
        skip_filler(s, i + 1)
    } else {
        i
    }
}

/// The first position at or after `i` that holds no digit.
pub open spec fn skip_digits(s: Seq<char>, i: int) -> int
    decreases s.len() - i,
{
    if 0 <= i < s.len() && is_digit(s[i]) {
        skip_digits(s, i + 1)
    } else {
        i
    }
}

/// An `=` that is not the end of `>=` or `<=`.
pub open spec fn opens_exact(s: Seq<char>, i: int) -> bool {
    s[i] == '=' && (i == 0 || (s[i - 1] != '<' && s[i - 1] != '>'))
}

/// After position `i`, past any filler, comes a wildcard.
pub open spec fn wildcard_major_after(s: Seq<char>, i: int) -> bool {
    let j = skip_filler(s, i + 1);
    j < s.len() && is_wildcard(s[j])
}

/// After position `i`, past any filler, comes a number, a wildcard minor
/// and a numeric patch.
pub open spec fn wildcard_minor_after(s: Seq<char>, i: int) -> bool {
    let j = skip_filler(s, i + 1);
    let k = skip_digits(s, j);
    j < k && k + 3 < s.len() && s[k] == '.' && is_wildcard(s[k + 1]) && s[k + 2] == '.' && is_digit(s[k + 3])
}

pub open spec fn hazard_at(s: Seq<char>, i: int) -> bool {
    ||| (opens_exact(s, i) || s[i] == '~') && wildcard_major_after(s, i)
    ||| s[i] == '~' && wildcard_minor_after(s, i)
}

/// The texts that `node_semver`'s range parser cannot finish: an exact `=`,
/// a `~` or a `~>` before a wildcard major, or a `~` before a wildcard minor
/// with a numeric patch.
pub open spec fn wildcard_hazard(s: Seq<char>) -> bool {
    exists|i: int| 0 <= i < s.len() && #[trigger] hazard_at(s, i)
}

/// The constraint texts this library reads.
pub open spec fn is_constraint_text(s: Seq<char>) -> bool {
    !wildcard_hazard(s) && is_range_text(s)
}

fn filler_at(text: &str, j: usize) -> (r: bool)
    requires
        j < text@.len(),
    ensures
        r == is_filler(text@[j as int]),
{
    let c = text.get_char(j);
    c == ' ' || c == '\t' || c == '>' || c == 'v'
}

fn digit_at(text: &str, j: usize) -> (r: bool)
    requires
        j < text@.len(),
    ensures
        r == is_digit(text@[j as int]),
{
    let c = text.get_char(j);
    '0' <= c && c <= '9'
}

fn skip_filler_from(text: &str, n: usize, i: usize) -> (r: usize)
    requires
        n == text@.len(),
        i <= n,
    ensures
        r == skip_filler(text@, i as int),
        r <= n,
{
    let mut j = i;
    while j < n && filler_at(text, j)
        invariant
            n == text@.len(),
            i <= j <= n,
            skip_filler(text@, i as int) == skip_filler(text@, j as int),
        decreases n - j,
    {
        j = j + 1;
    }
    j
}

fn skip_digits_from(text: &str, n: usize, i: usize) -> (r: usize)
    requires
        n == text@.len(),
        i <= n,
    ensures
        r == skip_digits(text@, i as int),
        r <= n,
{
    let mut j = i;
    while j < n && digit_at(text, j)
        invariant
            n == text@.len(),
            i <= j <= n,
            skip_digits(text@, i as int) == skip_digits(text@, j as int),
        decreases n - j,
    {
        j = j + 1;
    }
    j
}

fn hazard_at_exec(text: &str, n: usize, i: usize) -> (r: bool)
    requires
        n == text@.len(),
        i < n,
    ensures
        r == hazard_at(text@, i as int),
{
    let c = text.get_char(i);
    let exact = c == '=' && (i == 0 || {
        let p = text.get_char(i - 1);
        p != '<' && p != '>'
    });
    if !exact && c != '~' {
        return false;
    }
    let j = skip_filler_from(text, n, i + 1);
    if j < n {
        let w = text.get_char(j);
        if w == '*' || w == 'x' || w == 'X' {
            return true;
        }
    }
    if c != '~' {
        return false;
    }
    let k = skip_digits_from(text, n, j);
    if j < k && n > 3 && k < n - 3 {
        let dot1 = text.get_char(k);
        let minor = text.get_char(k + 1);
        let dot2 = text.get_char(k + 2);
        let patch = text.get_char(k + 3);
        dot1 == '.' && (minor == '*' || minor == 'x' || minor == 'X') && dot2 == '.' && '0' <= patch
            && patch <= '9'
    } else {
        false
    }
}

/// Whether the text holds a wildcard hazard.
pub fn has_wildcard_hazard(text: &str) -> (r: bool)
    ensures
        r == wildcard_hazard(text@),
{
    let n = text.unicode_len();
    let mut i: usize = 0;
    while i < n
        invariant
            n == text@.len(),
            i <= n,
            forall|k: int| 0 <= k < i ==> !#[trigger] hazard_at(text@, k),
        decreases n - i,
    {
        if hazard_at_exec(text, n, i) {
            return true;
        }
        i = i + 1;
    }
    false
}

/// Relies on `node_semver::Range::parse`: it accepts exactly the range texts.
/// Its parser stops with `unreachable!` on a wildcard hazard, so those texts
/// are left out.
#[verifier::external_body]
fn read_range(text: &str) -> (r: Result<Constraint, node_semver::SemverError>)
    requires
        !wildcard_hazard(text@),
    ensures
        r is Ok <==> is_range_text(text@),
        r matches Ok(c) ==> c@ == text@,
{
    match node_semver::Range::parse(text) {
        Ok(range) => Ok(Constraint { text: text.to_string(), range }),
        Err(e) => Err(e),
    }
}

/// Relies on `node_semver::Version::parse`: it accepts exactly the version texts.
#[verifier::external_body]
fn read_version(text: &str) -> (r: Result<SemVersion, node_semver::SemverError>)
    ensures
        r is Ok <==> is_version_text(text@),
        r matches Ok(v) ==> v@ == text@,
{
    match node_semver::Version::parse(text) {
        Ok(parsed) => Ok(SemVersion { text: text.to_string(), parsed }),
        Err(e) => Err(e),
    }
}

/// Relies on `node_semver::Range::satisfies`, a pure test of a version
/// against a range.
#[verifier::external_body]
fn range_satisfies(constraint: &Constraint, version: &SemVersion) -> (r: bool)
    ensures
        r == range_admits(constraint@, version@),
{
    constraint.range.satisfies(&version.parsed)
}

/// Relies on `node_semver::Version`'s `Display`: major, minor and patch,
/// then the pre-release and build identifiers.
#[verifier::external_body]
fn display_version(version: &SemVersion) -> (r: String)
    ensures
        r@ == version_text_of(version@),
{
    version.parsed.to_string()
}

/// Reads a version constraint (comparators, caret and tilde shorthand,
/// `||` unions and space-joined intersections). A text with a wildcard
/// hazard is refused like an unreadable one.
pub fn parse_constraint(text: &str) -> (r: Result<Constraint, CheckError>)
    ensures
        r is Ok <==> is_constraint_text(text@),
        r matches Ok(c) ==> c@ == text@,
        r matches Err(e) ==> e matches CheckError::ConstraintParse { constraint } && constraint@ == text@,
{
    if has_wildcard_hazard(text) {
        return Err(CheckError::ConstraintParse { constraint: String::from_str(text) });
    }
    match read_range(text) {
        Ok(c) => Ok(c),
        Err(_) => Err(CheckError::ConstraintParse { constraint: String::from_str(text) }),
    }
}

/// Reads a semantic version.
pub fn parse_version(text: &str) -> (r: Result<SemVersion, CheckError>)
    ensures
        r is Ok <==> is_version_text(text@),
        r matches Ok(v) ==> v@ == text@,
        r matches Err(e) ==> e matches CheckError::VersionParse { version } && version@ == text@,
{
    match read_version(text) {
        Ok(v) => Ok(v),
        Err(_) => Err(CheckError::VersionParse { version: String::from_str(text) }),
    }
}

/// Whether `text` is a valid version constraint.
pub fn is_valid_constraint(text: &str) -> (r: bool)
    ensures
        r == is_constraint_text(text@),
{
    parse_constraint(text).is_ok()
}

/// Whether `text` is a valid semantic version.
pub fn is_valid_version(text: &str) -> (r: bool)
    ensures
        r == is_version_text(text@),
{
    parse_version(text).is_ok()
}

/// Whether `version` lies within `constraint`.
pub fn satisfies(constraint: &Constraint, version: &SemVersion) -> (r: bool)
    ensures
        r == range_admits(constraint@, version@),
{
    range_satisfies(constraint, version)
}

/// Satisfaction depends on the two texts alone: constraints and versions
/// read from equal texts give equal answers, however often they are asked.
pub proof fn lemma_satisfaction_is_pure(c1: Constraint, c2: Constraint, v1: SemVersion, v2: SemVersion)
    requires
        c1@ == c2@,
        v1@ == v2@,
    ensures
        range_admits(c1@, v1@) == range_admits(c2@, v2@),
{
}

impl Constraint {
    /// The text the constraint was read from.
    pub fn as_str(&self) -> (r: &str)
        ensures
            r@ == self@,
    {
        self.text.as_str()
    }
}

impl SemVersion {
    /// The text the version was read from.
    pub fn as_str(&self) -> (r: &str)
        ensures
            r@ == self@,
    {
        self.text.as_str()
    }

    /// The version in normal form: `major.minor.patch`, then `-` and the
    /// pre-release identifiers, then `+` and the build identifiers.
    pub fn to_string(&self) -> (r: String)
        ensures
            r@ == version_text_of(self@),
    {
        display_version(self)
    }
}

} // verus!
