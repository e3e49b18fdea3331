//! xdg-desktop-portal frontend version evidence.
use vstd::prelude::*;
use vstd::string::*;
use crate::text::{append, chars_of, clone_string, contains_seq, contains_str, decimal, decimal_string, is_alphanumeric_ascii, is_ascii_alnum, is_ascii_digit, is_whitespace, is_ws, lower, opt_view, push_decimal, split_on, split_once, split_once_seq, split_seq, starts_with, strip_prefix, string_from, to_ascii_lowercase, trim, trim_str, views};

verus! {

/// The frontend component whose software version is collected.
pub const PORTAL_FRONTEND_COMPONENT: &'static str = "xdg-desktop-portal";

/// Numeric semantic version used for bounded compatibility comparisons.
#[derive(Debug, Clone, Copy, PartialEq, Eq, PartialOrd, Ord, Structural)]
pub struct SemanticVersion {
    pub major: u64,
    pub minor: u64,
    pub patch: u64,
}

impl SemanticVersion {
    /// Construct a comparable three-component version.
    pub fn new(major: u64, minor: u64, patch: u64) -> (v: SemanticVersion)
        ensures
            v.major == major && v.minor == minor && v.patch == patch,
    {
        SemanticVersion { major, minor, patch }
    }

    pub open spec fn text(self) -> Seq<char> {
        decimal(self.major as nat) + "."@ + decimal(self.minor as nat) + "."@ + decimal(
            self.patch as nat,
        )
    }

    /// `major.minor.patch`, as `Display` prints it.
    pub fn to_string(&self) -> (r: String)
        ensures
            r@ == self.text(),
    {
        let mut s = decimal_string(self.major);
        append(&mut s, ".");
        push_decimal(&mut s, self.minor);
        append(&mut s, ".");
        push_decimal(&mut s, self.patch);
        s
    }

    /// Numeric ordering: major, then minor, then patch.
    pub open spec fn less(self, other: SemanticVersion) -> bool {
        ||| self.major < other.major
        ||| (self.major == other.major && self.minor < other.minor)
        ||| (self.major == other.major && self.minor == other.minor && self.patch < other.patch)
    }

    pub fn is_less(&self, other: &SemanticVersion) -> (r: bool)
        ensures
            r == self.less(*other),
    {
        self.major < other.major || (self.major == other.major && self.minor < other.minor) || (
        self.major == other.major && self.minor == other.minor && self.patch < other.patch)
    }
}

/// Provenance for the frontend version evidence.
#[derive(Debug, Clone, PartialEq, Eq)]
pub enum VersionEvidenceSource {
    /// The frontend executable answered its bounded `--version` query.
    FrontendExecutable { command: String },
    /// A package-manager query returned the installed package version.
    DpkgQuery { package: String },
}

/// Normalized xdg-desktop-portal frontend version evidence.
#[derive(Debug, Clone, PartialEq, Eq)]
pub struct PortalFrontendInfo {
    /// Always `xdg-desktop-portal`.
    pub component: String,
    /// The version token exactly as returned by the selected source.
    pub raw_version: String,
    /// Numeric form used by compatibility rules.
    pub normalized_version: SemanticVersion,
    /// Source and command/package provenance for the evidence.
    pub source: VersionEvidenceSource,
}

impl PortalFrontendInfo {
    /// Build evidence after a source-specific parser has established the
    /// numeric version.
    pub fn new(
        raw_version: &str,
        normalized_version: SemanticVersion,
        source: VersionEvidenceSource,
    ) -> (i: PortalFrontendInfo)
        ensures
            i.component@ == PORTAL_FRONTEND_COMPONENT@,
            i.raw_version@ == raw_version@,
            i.normalized_version == normalized_version,
            i.source == source,
    {
        PortalFrontendInfo {
            component: PORTAL_FRONTEND_COMPONENT.to_owned(),
            raw_version: raw_version.to_owned(),
            normalized_version,
            source,
        }
    }
}

pub open spec fn is_core_char(c: char) -> bool {
    is_ascii_digit(c) || c == '.'
}

/// Length of the leading run of digits and dots.
pub open spec fn core_len(s: Seq<char>) -> nat
    decreases s.len(),
{
    if s.len() > 0 && is_core_char(s[0]) {
        1 + core_len(s.drop_first())
    } else {
        0
    }
}

proof fn lemma_core_len(s: Seq<char>, i: int)
    requires
        0 <= i <= s.len(),
        forall|k: int| 0 <= k < i ==> is_core_char(#[trigger] s[k]),
        i == s.len() || !is_core_char(s[i]),
    ensures
        core_len(s) == i,
    decreases i,
{
    if i > 0 {
        lemma_core_len(s.drop_first(), i - 1);
    }
}

pub open spec fn digit_value(c: char) -> nat {
    ((c as u32) - 48) as nat
}

/// Value of a string of decimal digits.
pub open spec fn digits_value(s: Seq<char>) -> nat
    decreases s.len(),
{
    if s.len() == 0 {
        0
    } else {
        digits_value(s.drop_last()) * 10 + digit_value(s.last())
    }
}

pub open spec fn all_digits(s: Seq<char>) -> bool {
    forall|i: int| 0 <= i < s.len() ==> is_ascii_digit(#[trigger] s[i])
}

/// `str::parse::<u64>` on a string without a sign.
pub open spec fn parse_u64_spec(s: Seq<char>) -> Option<u64> {
    if s.len() > 0 && all_digits(s) && digits_value(s) <= u64::MAX {
        Some(digits_value(s) as u64)
    } else {
        None
    }
}

proof fn lemma_digits_monotone(s: Seq<char>, i: int)
    requires
        0 <= i <= s.len(),
        all_digits(s),
    ensures
        digits_value(s.take(i)) <= digits_value(s),
    decreases s.len() - i,
{
    if i < s.len() {
        lemma_digits_monotone(s, i + 1);
        assert(s.take(i + 1).drop_last() =~= s.take(i));
        assert(digits_value(s.take(i)) <= digits_value(s.take(i)) * 10) by (nonlinear_arith);
    } else {
        assert(s.take(i) =~= s);
    }
}

/// Parses a run of decimal digits without overflow.
pub fn parse_u64(s: &str) -> (r: Option<u64>)
    ensures
        r == parse_u64_spec(s@),
{
    let cs = chars_of(s);
    if cs.len() == 0 {
        return None;
    }
    let mut i: usize = 0;
    while i < cs.len()
        invariant
            cs@ == s@,
            i <= cs@.len(),
            forall|k: int| 0 <= k < i ==> is_ascii_digit(#[trigger] s@[k]),
        decreases cs@.len() - i,
    {
        if !('0' <= cs[i] && cs[i] <= '9') {
            return None;
        }
        i = i + 1;
    }
    let mut acc: u64 = 0;
    let mut j: usize = 0;
    while j < cs.len()
        invariant
            cs@ == s@,
            all_digits(s@),
            j <= cs@.len(),
            acc == digits_value(s@.take(j as int)),
        decreases cs@.len() - j,
    {
        assert(s@.take(j + 1).drop_last() =~= s@.take(j as int));
        let d: u64 = (cs[j] as u32 - 48) as u64;
        assert(d == digit_value(s@[j as int]));
        match acc.checked_mul(10) {
            Some(m) => match m.checked_add(d) {
                Some(v) => {
                    acc = v;
                },
                None => {
                    proof {
                        lemma_digits_monotone(s@, j + 1);
                    }
                    return None;
                },
            },
            None => {
                proof {
                    lemma_digits_monotone(s@, j + 1);
                    assert(digits_value(s@.take(j + 1)) >= acc * 10);
                }
                return None;
            },
        }
        j = j + 1;
    }
    assert(s@.take(cs@.len() as int) =~= s@);
    Some(acc)
}

pub open spec fn suffix_char_ok(c: char) -> bool {
    is_ascii_alnum(c) || c == '+' || c == '-' || c == '.' || c == '_' || c == '~'
}

pub open spec fn has_unstable_marker(s: Seq<char>) -> bool {
    let l = lower(s);
    contains_seq(l, "git"@) || contains_seq(l, "dev"@) || contains_seq(l, "snapshot"@)
}

/// A bounded distribution-revision suffix: `-<digit>...` or
/// `+<anything>-<digit>...`, made of version characters, without
/// git/dev/snapshot markers.
pub open spec fn valid_suffix(s: Seq<char>) -> bool {
    s.len() == 0 || {
        &&& !has_unstable_marker(s)
        &&& forall|i: int| 0 <= i < s.len() ==> suffix_char_ok(#[trigger] s[i])
        &&& {
            ||| (s[0] == '-' && s.len() > 1 && is_ascii_digit(s[1]))
            ||| (s[0] == '+' && match split_once_seq(s.drop_first(), '-') {
                Some((_, rev)) => rev.len() > 0 && is_ascii_digit(rev[0]),
                None => false,
            })
        }
    }
}

fn valid_distribution_suffix(suffix: &str) -> (r: bool)
    ensures
        r == valid_suffix(suffix@),
{
    let cs = chars_of(suffix);
    if cs.len() == 0 {
        return true;
    }
    let lowered = to_ascii_lowercase(suffix);
    if contains_str(lowered.as_str(), "git") || contains_str(lowered.as_str(), "dev")
        || contains_str(lowered.as_str(), "snapshot") {
        return false;
    }
    let mut i: usize = 0;
    while i < cs.len()
        invariant
            cs@ == suffix@,
            i <= cs@.len(),
            forall|k: int| 0 <= k < i ==> suffix_char_ok(#[trigger] suffix@[k]),
        decreases cs@.len() - i,
    {
        let c = cs[i];
        if !(is_alphanumeric_ascii(c) || c == '+' || c == '-' || c == '.' || c == '_' || c == '~') {
            return false;
        }
        i = i + 1;
    }
    if cs[0] == '-' {
        return cs.len() > 1 && '0' <= cs[1] && cs[1] <= '9';
    }
    if cs[0] == '+' {
        let rest = string_from(&cs, 1, cs.len());
        assert(rest@ =~= suffix@.drop_first());
        return match split_once(rest.as_str(), '-') {
            Some((_, rev)) => {
                let rv = chars_of(rev.as_str());
                rv.len() > 0 && '0' <= rv[0] && rv[0] <= '9'
            },
            None => false,
        };
    }
    false
}

pub open spec fn has_ws(s: Seq<char>) -> bool {
    exists|i: int| 0 <= i < s.len() && is_ws(#[trigger] s[i])
}

fn contains_whitespace(s: &str) -> (r: bool)
    ensures
        r == has_ws(s@),
{
    let cs = chars_of(s);
    let mut i: usize = 0;
    while i < cs.len()
        invariant
            cs@ == s@,
            i <= cs@.len(),
            forall|k: int| 0 <= k < i ==> !is_ws(#[trigger] s@[k]),
        decreases cs@.len() - i,
    {
        if is_whitespace(cs[i]) {
            return true;
        }
        i = i + 1;
    }
    false
}

/// The strict three-component version with an optional distribution suffix.
pub open spec fn semantic_version_spec(raw: Seq<char>) -> Option<SemanticVersion> {
    let v = trim(raw);
    if v.len() == 0 || has_ws(v) {
        None
    } else {
        let e = core_len(v) as int;
        let core = v.take(e);
        let suffix = v.skip(e);
        let parts = split_seq(core, seq!['.']);
        if !valid_suffix(suffix) || parts.len() != 3 {
            None
        } else {
            match (parse_u64_spec(parts[0]), parse_u64_spec(parts[1]), parse_u64_spec(parts[2])) {
                (Some(a), Some(b), Some(c)) => Some(SemanticVersion { major: a, minor: b, patch: c }),
                _ => None,
            }
        }
    }
}

/// Parse a strict three-component upstream version with a bounded,
/// distribution-revision suffix (`1.22.0`, `1.22.0+ds-1ubuntu3`,
/// `1.23.0-1.fc42`). Pre-release, git/date and otherwise ambiguous suffixes
/// are rejected.
pub fn parse_semantic_version(raw: &str) -> (r: Option<SemanticVersion>)
    ensures
        r == semantic_version_spec(raw@),
{
    let value = trim_str(raw);
    if value.as_str().is_empty() || contains_whitespace(value.as_str()) {
        return None;
    }
    let cs = chars_of(value.as_str());
    let mut e: usize = 0;
    while e < cs.len() && (('0' <= cs[e] && cs[e] <= '9') || cs[e] == '.')
        invariant
            cs@ == value@,
            e <= cs@.len(),
            forall|k: int| 0 <= k < e ==> is_core_char(#[trigger] value@[k]),
        decreases cs@.len() - e,
    {
        e = e + 1;
    }
    proof {
        lemma_core_len(value@, e as int);
    }
    let core = string_from(&cs, 0, e);
    let suffix = string_from(&cs, e, cs.len());
    assert(core@ =~= value@.take(e as int));
    assert(suffix@ =~= value@.skip(e as int));
    if !valid_distribution_suffix(suffix.as_str()) {
        return None;
    }
    let dot: [char; 1] = ['.'];
    let parts = split_on(core.as_str(), &dot);
    assert(dot@ =~= seq!['.']);
    if parts.len() != 3 {
        return None;
    }
    let major = parse_u64(parts[0].as_str());
    let minor = parse_u64(parts[1].as_str());
    let patch = parse_u64(parts[2].as_str());
    assert(views(parts@)[0] == parts@[0]@);
    assert(views(parts@)[1] == parts@[1]@);
    assert(views(parts@)[2] == parts@[2]@);
    match (major, minor, patch) {
        (Some(a), Some(b), Some(c)) => Some(SemanticVersion::new(a, b, c)),
        _ => None,
    }
}

pub open spec fn single_line_spec(raw: Seq<char>) -> Option<Seq<char>> {
    let line = trim(raw);
    if line.len() > 0 && !line.contains('\n') && !line.contains('\r') {
        Some(line)
    } else {
        None
    }
}

fn single_line(raw: &str) -> (r: Option<String>)
    ensures
        opt_view(r) == single_line_spec(raw@),
{
    let line = trim_str(raw);
    let nl: [char; 1] = ['\n'];
    let cr: [char; 1] = ['\r'];
    let cs = chars_of(line.as_str());
    let mut i: usize = 0;
    while i < cs.len()
        invariant
            cs@ == line@,
            line@ == trim(raw@),
            i <= cs@.len(),
            forall|k: int| 0 <= k < i ==> line@[k] != '\n' && line@[k] != '\r',
        decreases cs@.len() - i,
    {
        if cs[i] == '\n' {
            assert(line@[i as int] == '\n');
            assert(line@.contains('\n'));
            return None;
        }
        if cs[i] == '\r' {
            assert(line@[i as int] == '\r');
            assert(line@.contains('\r'));
            return None;
        }
        i = i + 1;
    }
    if cs.len() == 0 {
        return None;
    }
    Some(line)
}

pub open spec fn frontend_version_spec(raw: Seq<char>) -> Option<(Seq<char>, SemanticVersion)> {
    match single_line_spec(raw) {
        None => None,
        Some(line) => {
            let prefix = "xdg-desktop-portal "@;
            let version = trim(
                if starts_with(line, prefix) {
                    line.subrange(prefix.len() as int, line.len() as int)
                } else {
                    line
                },
            );
            if version.len() == 0 || has_ws(version) {
                None
            } else {
                match semantic_version_spec(version) {
                    Some(v) => Some((version, v)),
                    None => None,
                }
            }
        },
    }
}

/// Parse the upstream frontend output (`xdg-desktop-portal X.Y.Z`) or a
/// bare version emitted by a compatible wrapper.
pub fn parse_frontend_version_output(raw: &str) -> (r: Option<(String, SemanticVersion)>)
    ensures
        match r {
            Some((s, v)) => frontend_version_spec(raw@) == Some((s@, v)),
            None => frontend_version_spec(raw@) is None,
        },
{
    let line = match single_line(raw) {
        Some(l) => l,
        None => return None,
    };
    let stripped = match strip_prefix(line.as_str(), "xdg-desktop-portal ") {
        Some(rest) => rest,
        None => clone_string(&line),
    };
    let version = trim_str(stripped.as_str());
    if version.as_str().is_empty() || contains_whitespace(version.as_str()) {
        return None;
    }
    match parse_semantic_version(version.as_str()) {
        Some(v) => Some((version, v)),
        None => None,
    }
}

pub open spec fn package_version_spec(raw: Seq<char>) -> Option<(Seq<char>, SemanticVersion)> {
    match single_line_spec(raw) {
        None => None,
        Some(line) => match semantic_version_spec(line) {
            Some(v) => Some((line, v)),
            None => None,
        },
    }
}

/// Parse package-manager output, which must contain exactly one version line.
pub fn parse_package_version_output(raw: &str) -> (r: Option<(String, SemanticVersion)>)
    ensures
        match r {
            Some((s, v)) => package_version_spec(raw@) == Some((s@, v)),
            None => package_version_spec(raw@) is None,
        },
{
    let line = match single_line(raw) {
        Some(l) => l,
        None => return None,
    };
    match parse_semantic_version(line.as_str()) {
        Some(v) => Some((line, v)),
        None => None,
    }
}

} // verus!
