//! The privacy boundary of shareable reports: allowlisted variables only,
//! the home directory normalized, secrets, user names and (on request) the
//! hostname replaced.
use vstd::prelude::*;
use crate::collectors::environment::{allowlisted, is_allowlisted};
use crate::model::finding::Finding;
use crate::model::snapshot::{Snapshot, PUBLIC_JSON_SCHEMA_VERSION};
use crate::report::walk::{redact_report, Redact};
use crate::text::{
    append, chars_of, concat2, eq_str, find_at, first_at, is_ascii_alnum, is_ascii_ws, lower, occurs_at,
    push_char, push_range, strip_trailing, to_ascii_lowercase,
};

verus! {

/// Version of the explicit, privacy-aware report document.
pub const SHAREABLE_REPORT_VERSION: u32 = 1;

/// Raw diagnostic streams are deliberately not retained by the normalized
/// snapshot; the report says so explicitly.
#[derive(Debug, Clone, Copy, PartialEq, Eq, Structural)]
pub enum RawDataPolicy {
    Excluded,
}

/// Privacy metadata attached to every shareable report.
#[derive(Debug, Clone, Copy, PartialEq, Eq, Structural)]
pub struct ShareablePrivacy {
    pub redacted: bool,
    pub home_normalized: bool,
    pub hostname_suppressed: bool,
    pub raw_journal: RawDataPolicy,
    pub raw_pipewire: RawDataPolicy,
}

/// Explicit report document emitted by `portaldoctor report`.
#[derive(Debug, Clone, PartialEq, Eq)]
pub struct ShareableReport {
    pub report_version: u32,
    pub schema_version: u32,
    pub portaldoctor_version: String,
    pub privacy: ShareablePrivacy,
    pub snapshot: Snapshot,
    pub findings: Vec<Finding>,
}

/// Runtime inputs controlling shareable-report redaction.
#[derive(Debug, Clone, PartialEq, Eq)]
pub struct RedactionOptions {
    /// Home directory to normalize. The value is never serialized.
    pub home: Option<String>,
    /// Replace the current hostname with `<hostname>` when enabled.
    pub suppress_hostname: bool,
    /// Hostname captured by the caller, kept separate for deterministic tests.
    pub hostname: Option<String>,
}

impl ShareableReport {
    /// The shareable document of a report: the report redacted (see
    /// [`Redact`]), with an explicit document version and privacy
    /// declaration. This is the privacy boundary of both the JSON and the
    /// Markdown document.
    pub fn from_report(report: crate::report::Report, options: &RedactionOptions) -> (r: Self)
        ensures
            r.report_version == SHAREABLE_REPORT_VERSION,
            r.schema_version == report.schema_version,
            r.portaldoctor_version.redacted_from(report.portaldoctor_version, *options),
            r.privacy == (ShareablePrivacy {
                redacted: true,
                home_normalized: options.home is Some,
                hostname_suppressed: options.suppress_hostname,
                raw_journal: RawDataPolicy::Excluded,
                raw_pipewire: RawDataPolicy::Excluded,
            }),
            r.snapshot.redacted_from(report.snapshot, *options),
            r.findings.redacted_from(report.findings, *options),
    {
        let red = redact_report(&report, options);
        ShareableReport {
            report_version: SHAREABLE_REPORT_VERSION,
            schema_version: red.schema_version,
            portaldoctor_version: red.portaldoctor_version,
            privacy: ShareablePrivacy {
                redacted: true,
                home_normalized: options.home.is_some(),
                hostname_suppressed: options.suppress_hostname,
                raw_journal: RawDataPolicy::Excluded,
                raw_pipewire: RawDataPolicy::Excluded,
            },
            snapshot: red.snapshot,
            findings: red.findings,
        }
    }

    /// Whether a document may be emitted: the current document and schema
    /// versions, and a redacted privacy declaration.
    pub fn shareable_valid(&self) -> (r: bool)
        ensures
            r == (self.report_version == SHAREABLE_REPORT_VERSION && self.schema_version == PUBLIC_JSON_SCHEMA_VERSION
                && self.privacy.redacted),
    {
        self.report_version == SHAREABLE_REPORT_VERSION && self.schema_version == PUBLIC_JSON_SCHEMA_VERSION
            && self.privacy.redacted
    }
}

impl RedactionOptions {
    /// Build redaction inputs from the values of `HOME` and `HOSTNAME`:
    /// empty values count as absent, and the hostname is kept only when it
    /// is to be suppressed.
    pub fn from_environment(suppress_hostname: bool, home: Option<String>, hostname: Option<String>) -> (r: Self)
        ensures
            r.home == (match home { Some(h) => if h@.len() > 0 { Some(h) } else { None }, None => None }),
            r.suppress_hostname == suppress_hostname,
            r.hostname == (if suppress_hostname {
                match hostname { Some(h) => if h@.len() > 0 { Some(h) } else { None }, None => None }
            } else {
                None
            }),
    {
        let home = match home {
            Some(h) => if h.as_str().is_empty() { None } else { Some(h) },
            None => None,
        };
        let hostname = if suppress_hostname {
            match hostname {
                Some(h) => if h.as_str().is_empty() { None } else { Some(h) },
                None => None,
            }
        } else {
            None
        };
        RedactionOptions { home, suppress_hostname, hostname }
    }
}

/// Members of an object kept in a shareable report: under `process` only
/// allowlisted variables survive.
pub fn keep_object_member(parent_key: Option<&str>, member: &str) -> (r: bool)
    ensures
        r == (match parent_key {
            Some(k) => k@ != "process"@ || allowlisted(member@),
            None => true,
        }),
{
    match parent_key {
        Some(k) => !eq_str(k, "process") || is_allowlisted(member),
        None => true,
    }
}

/// Items of an array kept in a shareable report: under `entries`, an item
/// whose `key` names a variable survives only when that variable is
/// allowlisted.
pub fn keep_array_item(parent_key: Option<&str>, item_key: Option<&str>) -> (r: bool)
    ensures
        r == (match (parent_key, item_key) {
            (Some(k), Some(name)) => k@ != "entries"@ || allowlisted(name@),
            _ => true,
        }),
{
    match (parent_key, item_key) {
        (Some(k), Some(name)) => !eq_str(k, "entries") || is_allowlisted(name),
        _ => true,
    }
}

/// Characters that may precede a home directory at a path boundary.
pub open spec fn home_before(c: char) -> bool {
    is_ascii_ws(c) || c == '=' || c == ':' || c == '/' || c == '(' || c == '[' || c == '{' || c == '"' || c == '\'' || c == ','
}

/// Characters that may follow a home directory at a path boundary.
pub open spec fn home_after(c: char) -> bool {
    is_ascii_ws(c) || c == '/' || c == '\\' || c == '"' || c == '\'' || c == ',' || c == ')' || c == ']' || c == '}'
}

pub open spec fn hostname_char(c: char) -> bool {
    is_ascii_alnum(c) || c == '.' || c == '-' || c == '_'
}

/// Whether a match at `start..end` stands alone: at path boundaries for a
/// home directory, between non-hostname characters for a hostname.
pub open spec fn boundary_ok(home_rules: bool, s: Seq<char>, start: int, end: int) -> bool {
    if home_rules {
        (start == 0 || home_before(s[start - 1])) && (end == s.len() || home_after(s[end]))
    } else {
        (start == 0 || !hostname_char(s[start - 1])) && (end == s.len() || !hostname_char(s[end]))
    }
}

/// `s[cursor..]` with every standalone occurrence of `p` replaced, matches
/// taken left to right without overlap.
pub open spec fn substitute_from(s: Seq<char>, p: Seq<char>, repl: Seq<char>, home_rules: bool, cursor: int) -> Seq<char>
    decreases s.len() + 1 - cursor,
{
    if cursor < 0 || cursor > s.len() || p.len() == 0 {
        Seq::empty()
    } else {
        let start = first_at(s, p, cursor);
        if start < cursor {
            s.subrange(cursor, s.len() as int)
        } else {
            let end = start + p.len();
            if end > s.len() {
                Seq::empty()
            } else if boundary_ok(home_rules, s, start, end) {
                s.subrange(cursor, start) + repl + substitute_from(s, p, repl, home_rules, end)
            } else {
                s.subrange(cursor, end) + substitute_from(s, p, repl, home_rules, end)
            }
        }
    }
}

fn is_home_before(c: char) -> (r: bool)
    ensures
        r == home_before(c),
{
    crate::text::is_ascii_whitespace(c) || c == '=' || c == ':' || c == '/' || c == '(' || c == '[' || c == '{' || c == '"'
        || c == '\'' || c == ','
}

fn is_home_after(c: char) -> (r: bool)
    ensures
        r == home_after(c),
{
    crate::text::is_ascii_whitespace(c) || c == '/' || c == '\\' || c == '"' || c == '\'' || c == ',' || c == ')' || c == ']'
        || c == '}'
}

fn is_hostname_character(c: char) -> (r: bool)
    ensures
        r == hostname_char(c),
{
    crate::text::is_alphanumeric_ascii(c) || c == '.' || c == '-' || c == '_'
}

/// Replace every standalone occurrence of `needle` by `replacement`.
fn substitute(input: &str, needle: &str, replacement: &str, home_rules: bool) -> (r: String)
    requires
        needle@.len() > 0,
    ensures
        r@ == substitute_from(input@, needle@, replacement@, home_rules, 0),
{
    let cs = chars_of(input);
    let ps = chars_of(needle);
    let n = cs.len();
    let mut output = String::new();
    let mut cursor: usize = 0;
    loop
        invariant
            cs@ == input@,
            ps@ == needle@,
            n == cs@.len(),
            ps@.len() > 0,
            cursor <= n,
            output@ + substitute_from(input@, needle@, replacement@, home_rules, cursor as int)
                == substitute_from(input@, needle@, replacement@, home_rules, 0),
        decreases n - cursor,
    {
        match find_at(&cs, &ps, cursor) {
            None => {
                push_range(&mut output, &cs, cursor, n);
                return output;
            },
            Some(start) => {
                let end = start + ps.len();
                let before_ok = start == 0 || if home_rules { is_home_before(cs[start - 1]) } else { !is_hostname_character(cs[start - 1]) };
                let after_ok = end == n || if home_rules { is_home_after(cs[end]) } else { !is_hostname_character(cs[end]) };
                let ghost rest = substitute_from(input@, needle@, replacement@, home_rules, end as int);
                if before_ok && after_ok {
                    push_range(&mut output, &cs, cursor, start);
                    append(&mut output, replacement);
                } else {
                    push_range(&mut output, &cs, cursor, end);
                }
                cursor = end;
                assert(output@ + rest == substitute_from(input@, needle@, replacement@, home_rules, 0)) by {
                    assert(boundary_ok(home_rules, input@, start as int, end as int) == (before_ok && after_ok));
                }
            },
        }
    }
}

/// The home directory as it is matched: trailing `/` removed; `None` when
/// nothing usable is left.
pub open spec fn home_pattern(home: Option<Seq<char>>) -> Option<Seq<char>> {
    match home {
        Some(h) => {
            let t = strip_trailing(h, '/');
            if t.len() == 0 || t == "/"@ { None } else { Some(t) }
        },
        None => None,
    }
}

pub open spec fn normalize_home_spec(input: Seq<char>, home: Option<Seq<char>>) -> Seq<char> {
    match home_pattern(home) {
        Some(h) => substitute_from(input, h, "$HOME"@, true, 0),
        None => input,
    }
}

/// Replace the home directory by `$HOME` where it stands at path
/// boundaries.
pub fn normalize_home(input: &str, home: Option<&str>) -> (r: String)
    ensures
        r@ == normalize_home_spec(input@, match home { Some(h) => Some(h@), None => None }),
{
    let h = match home {
        Some(h) => h,
        None => return input.to_owned(),
    };
    let cs = chars_of(h);
    let mut hi: usize = cs.len();
    assert(h@.subrange(0, hi as int) =~= h@);
    while hi > 0 && cs[hi - 1] == '/'
        invariant
            cs@ == h@,
            hi <= cs@.len(),
            strip_trailing(h@, '/') == strip_trailing(h@.subrange(0, hi as int), '/'),
        decreases hi,
    {
        assert(h@.subrange(0, hi as int).drop_last() =~= h@.subrange(0, hi - 1));
        hi = hi - 1;
    }
    assert(strip_trailing(h@.subrange(0, hi as int), '/') == h@.subrange(0, hi as int));
    let trimmed = crate::text::string_from(&cs, 0, hi);
    if trimmed.as_str().is_empty() || eq_str(trimmed.as_str(), "/") {
        return input.to_owned();
    }
    substitute(input, trimmed.as_str(), "$HOME", true)
}

/// Replace a standalone hostname-like token.
pub fn replace_token(input: &str, needle: &str, replacement: &str) -> (r: String)
    ensures
        r@ == if needle@.len() == 0 { input@ } else { substitute_from(input@, needle@, replacement@, false, 0) },
{
    if needle.is_empty() {
        return input.to_owned();
    }
    substitute(input, needle, replacement, false)
}

/// Characters that continue a label (so `xtoken=` is not `token=`).
pub open spec fn label_char(c: char) -> bool {
    is_ascii_alnum(c) || c == '_' || c == '-'
}

/// `pat` occurs in `lower` at `p` and is not glued to a preceding label
/// character of `cased`.
pub open spec fn label_ok(lower: Seq<char>, cased: Seq<char>, pat: Seq<char>, p: int) -> bool {
    occurs_at(lower, pat, p) && (p == 0 || !label_char(cased[p - 1]))
}

/// First position at or after `from` where `label_ok` holds, or -1.
pub open spec fn first_label(lower: Seq<char>, cased: Seq<char>, pat: Seq<char>, from: int) -> int
    decreases lower.len() + 1 - from,
{
    if from < 0 || from > lower.len() {
        -1
    } else if label_ok(lower, cased, pat, from) {
        from
    } else {
        first_label(lower, cased, pat, from + 1)
    }
}

/// `label=` then `label:` for each label, in order.
pub open spec fn label_patterns(labels: Seq<Seq<char>>) -> Seq<Seq<char>>
    decreases labels.len(),
{
    if labels.len() == 0 {
        Seq::empty()
    } else {
        label_patterns(labels.drop_last()).push(labels.last() + "="@).push(labels.last() + ":"@)
    }
}

/// The earliest labeled value at or after `from` as (position, end of the
/// label); on equal positions the earlier pattern wins.
pub open spec fn best_label(lower: Seq<char>, cased: Seq<char>, pats: Seq<Seq<char>>, from: int) -> Option<(int, int)>
    decreases pats.len(),
{
    if pats.len() == 0 {
        None
    } else {
        let prev = best_label(lower, cased, pats.drop_last(), from);
        let p = first_label(lower, cased, pats.last(), from);
        if p < 0 {
            prev
        } else {
            match prev {
                Some(b) => if b.0 <= p { prev } else { Some((p, p + pats.last().len())) },
                None => Some((p, p + pats.last().len())),
            }
        }
    }
}

pub open spec fn value_stop(c: char) -> bool {
    is_ascii_ws(c) || c == ',' || c == ';' || c == ')' || c == ']' || c == '}'
}

/// First index at or after `from` holding `q`, or `s.len()`.
pub open spec fn first_char_from(s: Seq<char>, q: char, from: int) -> int
    decreases s.len() - from,
{
    if from < 0 || from >= s.len() {
        s.len() as int
    } else if s[from] == q {
        from
    } else {
        first_char_from(s, q, from + 1)
    }
}

/// First index at or after `from` that ends an unquoted value, or `s.len()`.
pub open spec fn first_stop_from(s: Seq<char>, from: int) -> int
    decreases s.len() - from,
{
    if from < 0 || from >= s.len() {
        s.len() as int
    } else if value_stop(s[from]) {
        from
    } else {
        first_stop_from(s, from + 1)
    }
}

/// The quote opening a value at `i`, if any.
pub open spec fn quote_at(s: Seq<char>, i: int) -> Option<char> {
    if 0 <= i < s.len() && (s[i] == '"' || s[i] == '\'') { Some(s[i]) } else { None }
}

/// `s[cursor..]` with the value after every label replaced; quotes and the
/// delimiter that ends a value are kept.
pub open spec fn redact_from(s: Seq<char>, pats: Seq<Seq<char>>, repl: Seq<char>, cursor: int) -> Seq<char>
    decreases s.len() - cursor,
{
    if cursor < 0 || cursor >= s.len() {
        Seq::empty()
    } else {
        match best_label(lower(s), s, pats, cursor) {
            None => s.subrange(cursor, s.len() as int),
            Some(found) => {
                let le = found.1;
                if le <= cursor || le > s.len() {
                    Seq::empty()
                } else {
                    match quote_at(s, le) {
                        Some(q) => {
                            let ce = first_char_from(s, q, le + 1);
                            if ce < le + 1 || ce > s.len() {
                                Seq::empty()
                            } else if ce < s.len() {
                                s.subrange(cursor, le) + repl + seq![q] + redact_from(s, pats, repl, ce + 1)
                            } else {
                                s.subrange(cursor, le) + repl + redact_from(s, pats, repl, ce)
                            }
                        },
                        None => {
                            let ce = first_stop_from(s, le);
                            if ce < le || ce > s.len() {
                                Seq::empty()
                            } else {
                                s.subrange(cursor, le) + repl + redact_from(s, pats, repl, ce)
                            }
                        },
                    }
                }
            },
        }
    }
}

fn is_label_character(c: char) -> (r: bool)
    ensures
        r == label_char(c),
{
    crate::text::is_alphanumeric_ascii(c) || c == '_' || c == '-'
}

proof fn lemma_first_label_ge(lower: Seq<char>, cased: Seq<char>, pat: Seq<char>, from: int)
    ensures
        first_label(lower, cased, pat, from) == -1 || (from <= first_label(lower, cased, pat, from)
            && label_ok(lower, cased, pat, first_label(lower, cased, pat, from))),
    decreases lower.len() + 1 - from,
{
    if 0 <= from <= lower.len() && !label_ok(lower, cased, pat, from) {
        lemma_first_label_ge(lower, cased, pat, from + 1);
    }
}

/// First `label_ok` position of `pat` at or after `from`.
fn first_label_exec(lower: &Vec<char>, cased: &Vec<char>, pat: &Vec<char>, from: usize) -> (r: Option<usize>)
    requires
        from <= lower@.len(),
        lower@.len() == cased@.len(),
    ensures
        match r {
            Some(p) => p as int == first_label(lower@, cased@, pat@, from as int),
            None => first_label(lower@, cased@, pat@, from as int) == -1,
        },
{
    let mut search_from = from;
    loop
        invariant
            from <= search_from <= lower@.len(),
            lower@.len() == cased@.len(),
            first_label(lower@, cased@, pat@, from as int) == first_label(lower@, cased@, pat@, search_from as int),
        decreases lower@.len() - search_from,
    {
        match find_at(lower, pat, search_from) {
            None => {
                proof {
                    lemma_first_label_none(lower@, cased@, pat@, search_from as int);
                }
                return None;
            },
            Some(position) => {
                let before_ok = position == 0 || !is_label_character(cased[position - 1]);
                proof {
                    lemma_first_label_skip(lower@, cased@, pat@, search_from as int, position as int);
                }
                if before_ok {
                    return Some(position);
                }
                if position >= lower.len() {
                    proof {
                        assert(first_label(lower@, cased@, pat@, position as int) == first_label(lower@, cased@, pat@, position + 1));
                    }
                    return None;
                }
                search_from = position + 1;
            },
        }
    }
}

proof fn lemma_first_label_none(lower: Seq<char>, cased: Seq<char>, pat: Seq<char>, from: int)
    requires
        0 <= from <= lower.len(),
        first_at(lower, pat, from) == -1,
    ensures
        first_label(lower, cased, pat, from) == -1,
    decreases lower.len() + 1 - from,
{
    assert(!occurs_at(lower, pat, from));
    if from < lower.len() {
        lemma_first_label_none(lower, cased, pat, from + 1);
    } else {
        assert(first_label(lower, cased, pat, from + 1) == -1);
    }
}

/// Between `from` and the next occurrence nothing is `label_ok`; at the
/// occurrence, `label_ok` is the boundary test.
proof fn lemma_first_label_skip(lower: Seq<char>, cased: Seq<char>, pat: Seq<char>, from: int, position: int)
    requires
        0 <= from <= position <= lower.len(),
        first_at(lower, pat, from) == position,
        occurs_at(lower, pat, position),
    ensures
        first_label(lower, cased, pat, from) == first_label(lower, cased, pat, position),
    decreases position - from,
{
    if from < position {
        assert(!occurs_at(lower, pat, from));
        lemma_first_label_skip(lower, cased, pat, from + 1, position);
    }
}

/// The earliest labeled value at or after `cursor`, as (position, end of
/// the label).
fn find_labeled_value(lower: &Vec<char>, cased: &Vec<char>, cursor: usize, labels: &Vec<&str>) -> (r: Option<(usize, usize)>)
    requires
        cursor <= lower@.len(),
        lower@.len() == cased@.len(),
    ensures
        match r {
            Some(found) => best_label(lower@, cased@, label_patterns(labels@.map_values(|l: &str| l@)), cursor as int)
                == Some((found.0 as int, found.1 as int)),
            None => best_label(lower@, cased@, label_patterns(labels@.map_values(|l: &str| l@)), cursor as int) is None,
        },
        match r {
            Some(found) => cursor <= found.0 < found.1 <= lower@.len(),
            None => true,
        },
{
    let ghost ls = labels@.map_values(|l: &str| l@);
    let mut result: Option<(usize, usize)> = None;
    let mut li: usize = 0;
    while li < labels.len()
        invariant
            li <= labels@.len(),
            ls == labels@.map_values(|l: &str| l@),
            cursor <= lower@.len(),
            lower@.len() == cased@.len(),
            match result {
                Some(found) => best_label(lower@, cased@, label_patterns(ls.take(li as int)), cursor as int)
                    == Some((found.0 as int, found.1 as int)) && cursor <= found.0 < found.1 <= lower@.len(),
                None => best_label(lower@, cased@, label_patterns(ls.take(li as int)), cursor as int) is None,
            },
        decreases labels@.len() - li,
    {
        let label = labels[li];
        assert(ls.take(li + 1).drop_last() =~= ls.take(li as int));
        assert(ls.take(li + 1).last() == label@);
        let ghost base = label_patterns(ls.take(li as int));
        let mut sep: usize = 0;
        while sep < 2
            invariant
                sep <= 2,
                cursor <= lower@.len(),
                lower@.len() == cased@.len(),
                match result {
                    Some(found) => best_label(lower@, cased@,
                        if sep == 0 { base } else if sep == 1 { base.push(label@ + "="@) } else { base.push(label@ + "="@).push(label@ + ":"@) },
                        cursor as int) == Some((found.0 as int, found.1 as int)) && cursor <= found.0 < found.1 <= lower@.len(),
                    None => best_label(lower@, cased@,
                        if sep == 0 { base } else if sep == 1 { base.push(label@ + "="@) } else { base.push(label@ + "="@).push(label@ + ":"@) },
                        cursor as int) is None,
                },
            decreases 2 - sep,
        {
            let pattern = if sep == 0 { concat2(label, "=") } else { concat2(label, ":") };
            let pat = chars_of(pattern.as_str());
            proof {
                reveal_strlit("=");
                reveal_strlit(":");
            }
            assert(pat@.len() > 0);
            let ghost pats_before = if sep == 0 { base } else { base.push(label@ + "="@) };
            let ghost pats_after = pats_before.push(pat@);
            assert(pats_after.drop_last() =~= pats_before);
            match first_label_exec(lower, cased, &pat, cursor) {
                Some(position) => {
                    proof {
                        lemma_first_label_ge(lower@, cased@, pat@, cursor as int);
                        assert(label_ok(lower@, cased@, pat@, position as int));
                        assert(occurs_at(lower@, pat@, position as int));
                        assert(pat@.len() > 0);
                    }
                    let ln = lower.len();
                    assert(position + pat@.len() <= ln);
                    let label_end = position + pat.len();
                    let better = match result {
                        Some(best) => position < best.0,
                        None => true,
                    };
                    if better {
                        result = Some((position, label_end));
                    }
                },
                None => {},
            }
            assert(pats_after.last() == pat@);
            sep = sep + 1;
            assert(pats_after =~= if sep == 1 { base.push(label@ + "="@) } else { base.push(label@ + "="@).push(label@ + ":"@) });
        }
        assert(label_patterns(ls.take(li + 1)) =~= base.push(label@ + "="@).push(label@ + ":"@));
        li = li + 1;
    }
    assert(ls.take(li as int) =~= ls);
    result
}

/// Replace the value after each `label=` / `label:` (labels matched ASCII
/// case-insensitively) by `replacement`.
pub fn redact_labeled_values(input: &str, labels: &Vec<&str>, replacement: &str) -> (r: String)
    ensures
        r@ == redact_from(input@, label_patterns(labels@.map_values(|l: &str| l@)), replacement@, 0),
{
    let ghost pats = label_patterns(labels@.map_values(|l: &str| l@));
    let lowered = to_ascii_lowercase(input);
    let lower_cs = chars_of(lowered.as_str());
    let cs = chars_of(input);
    let n = cs.len();
    assert(lower(input@).len() == input@.len());
    let mut output = String::new();
    let mut cursor: usize = 0;
    while cursor < n
        invariant
            cs@ == input@,
            lower_cs@ == lower(input@),
            n == cs@.len(),
            lower_cs@.len() == n,
            cursor <= n,
            pats == label_patterns(labels@.map_values(|l: &str| l@)),
            output@ + redact_from(input@, pats, replacement@, cursor as int) == redact_from(input@, pats, replacement@, 0),
        decreases n - cursor,
    {
        let ghost c0 = cursor as int;
        let found = find_labeled_value(&lower_cs, &cs, cursor, labels);
        let label_end = match found {
            None => {
                push_range(&mut output, &cs, cursor, n);
                assert(redact_from(input@, pats, replacement@, cursor as int) == input@.subrange(cursor as int, n as int));
                return output;
            },
            Some(f) => f.1,
        };
        let ghost head = output@;
        push_range(&mut output, &cs, cursor, label_end);
        let value_start = label_end;
        let quote: Option<char> = if value_start < n && (cs[value_start] == '"' || cs[value_start] == '\'') {
            Some(cs[value_start])
        } else {
            None
        };
        assert(quote == quote_at(input@, value_start as int));
        match quote {
            Some(q) => {
                let mut ce: usize = value_start + 1;
                while ce < n && cs[ce] != q
                    invariant
                        cs@ == input@,
                        n == cs@.len(),
                        value_start + 1 <= ce <= n,
                        first_char_from(input@, q, value_start + 1) == first_char_from(input@, q, ce as int),
                    decreases n - ce,
                {
                    ce = ce + 1;
                }
                assert(first_char_from(input@, q, ce as int) == ce);
                append(&mut output, replacement);
                if ce < n {
                    push_char(&mut output, q);
                    cursor = ce + 1;
                } else {
                    cursor = ce;
                }
                assert(redact_from(input@, pats, replacement@, c0) == input@.subrange(c0, label_end as int) + replacement@
                    + if ce < n { seq![q] + redact_from(input@, pats, replacement@, ce + 1) } else { redact_from(input@, pats, replacement@, ce as int) });
                assert(output@ + redact_from(input@, pats, replacement@, cursor as int) =~= head + redact_from(input@, pats, replacement@, c0));
            },
            None => {
                let mut ce: usize = value_start;
                while ce < n && !(crate::text::is_ascii_whitespace(cs[ce]) || cs[ce] == ',' || cs[ce] == ';' || cs[ce] == ')'
                    || cs[ce] == ']' || cs[ce] == '}')
                    invariant
                        cs@ == input@,
                        n == cs@.len(),
                        value_start <= ce <= n,
                        first_stop_from(input@, value_start as int) == first_stop_from(input@, ce as int),
                    decreases n - ce,
                {
                    ce = ce + 1;
                }
                assert(first_stop_from(input@, ce as int) == ce);
                append(&mut output, replacement);
                cursor = ce;
                assert(redact_from(input@, pats, replacement@, c0) == input@.subrange(c0, label_end as int) + replacement@
                    + redact_from(input@, pats, replacement@, ce as int));
                assert(output@ + redact_from(input@, pats, replacement@, cursor as int) =~= head + redact_from(input@, pats, replacement@, c0));
            },
        }
    }
    output
}

/// The `label=value` redaction labels for secrets.
pub open spec fn secret_labels() -> Seq<Seq<char>> {
    seq!["token"@, "secret"@, "password"@, "passwd"@, "credential"@, "api_key"@, "access_token"@, "authorization"@]
}

pub open spec fn user_labels() -> Seq<Seq<char>> {
    seq!["user"@, "username"@]
}

pub open spec fn host_labels() -> Seq<Seq<char>> {
    seq!["host"@, "hostname"@, "machine"@]
}

/// Every redaction of one text value, in order.
pub open spec fn redact_text_spec(input: Seq<char>, opts: RedactionOptions) -> Seq<char> {
    let a = normalize_home_spec(input, opt_str_view(opts.home));
    let b = redact_from(a, label_patterns(secret_labels()), "<redacted>"@, 0);
    let c = redact_from(b, label_patterns(user_labels()), "<user>"@, 0);
    if opts.suppress_hostname {
        let d = redact_from(c, label_patterns(host_labels()), "<hostname>"@, 0);
        match opts.hostname {
            Some(h) => if h@.len() == 0 { d } else { substitute_from(d, h@, "<hostname>"@, false, 0) },
            None => d,
        }
    } else {
        c
    }
}

pub open spec fn opt_str_view(o: Option<String>) -> Option<Seq<char>> {
    match o {
        Some(s) => Some(s@),
        None => None,
    }
}

/// Redact one text value of a report.
pub fn redact_text(input: &str, options: &RedactionOptions) -> (r: String)
    ensures
        r@ == redact_text_spec(input@, *options),
{
    let home = match &options.home {
        Some(h) => Some(h.as_str()),
        None => None,
    };
    let mut output = normalize_home(input, home);
    let secrets: Vec<&str> = vec!["token", "secret", "password", "passwd", "credential", "api_key", "access_token", "authorization"];
    assert(secrets@.map_values(|l: &str| l@) =~= secret_labels());
    output = redact_labeled_values(output.as_str(), &secrets, "<redacted>");
    let users: Vec<&str> = vec!["user", "username"];
    assert(users@.map_values(|l: &str| l@) =~= user_labels());
    output = redact_labeled_values(output.as_str(), &users, "<user>");
    if options.suppress_hostname {
        let hosts: Vec<&str> = vec!["host", "hostname", "machine"];
        assert(hosts@.map_values(|l: &str| l@) =~= host_labels());
        output = redact_labeled_values(output.as_str(), &hosts, "<hostname>");
        match &options.hostname {
            Some(hostname) => {
                output = replace_token(output.as_str(), hostname.as_str(), "<hostname>");
            },
            None => {},
        }
    }
    output
}

} // verus!
verus! {

/// `label_patterns` lists `label=` then `label:` for each label in turn.
proof fn lemma_label_patterns(labels: Seq<Seq<char>>)
    ensures
        label_patterns(labels).len() == 2 * labels.len(),
        forall|j: int| 0 <= j < labels.len() ==> label_patterns(labels)[2 * j] == #[trigger] labels[j] + "="@
            && label_patterns(labels)[2 * j + 1] == labels[j] + ":"@,
    decreases labels.len(),
{
    if labels.len() > 0 {
        let d = labels.drop_last();
        lemma_label_patterns(d);
        assert forall|j: int| 0 <= j < labels.len() implies label_patterns(labels)[2 * j] == #[trigger] labels[j] + "="@
            && label_patterns(labels)[2 * j + 1] == labels[j] + ":"@ by {
            if j < d.len() {
                assert(d[j] == labels[j]);
            }
        }
    }
}

proof fn lemma_not_at(lw: Seq<char>, pat: Seq<char>, q: int, m: int)
    requires
        0 <= q,
        0 <= m < pat.len(),
        q + m < lw.len() ==> lw[q + m] != pat[m],
    ensures
        !occurs_at(lw, pat, q),
{
    if occurs_at(lw, pat, q) {
        assert(lw.subrange(q, q + pat.len())[m] == lw[q + m]);
    }
}

/// A pattern that ends in `=` or `:` and holds no space cannot start inside
/// a prefix that ends in a space and holds neither `=` nor `:`.
proof fn lemma_no_label_in_prefix(lw: Seq<char>, pat: Seq<char>, q: int, p: int)
    requires
        0 <= p < q <= lw.len(),
        lw[q - 1] == ' ',
        forall|i: int| 0 <= i < q ==> lw[i] != '=' && lw[i] != ':',
        pat.len() > 0,
        pat.last() == '=' || pat.last() == ':',
        forall|i: int| 0 <= i < pat.len() ==> pat[i] != ' ',
    ensures
        !occurs_at(lw, pat, p),
{
    if occurs_at(lw, pat, p) {
        let sub = lw.subrange(p, p + pat.len());
        if p + pat.len() <= q {
            assert(sub[pat.len() - 1] == lw[p + pat.len() - 1]);
        } else {
            assert(sub[q - 1 - p] == lw[q - 1]);
        }
    }
}

/// Positions where the pattern does not occur are skipped.
proof fn lemma_first_label_from(lw: Seq<char>, cased: Seq<char>, pat: Seq<char>, from: int, q: int)
    requires
        0 <= from <= q <= lw.len(),
        forall|p: int| from <= p < q ==> !occurs_at(lw, pat, p),
    ensures
        first_label(lw, cased, pat, from) == first_label(lw, cased, pat, q),
    decreases q - from,
{
    if from < q {
        lemma_first_label_from(lw, cased, pat, from + 1, q);
    }
}

/// A pattern missing from `lw[lo..]` (it holds a character found nowhere
/// there) is not found at or after `lo`.
proof fn lemma_first_label_absent(lw: Seq<char>, cased: Seq<char>, pat: Seq<char>, m: int, lo: int, from: int)
    requires
        0 <= m < pat.len(),
        0 <= lo <= from,
        forall|i: int| lo <= i < lw.len() ==> lw[i] != pat[m],
    ensures
        first_label(lw, cased, pat, from) == -1,
    decreases lw.len() + 1 - from,
{
    if from <= lw.len() {
        if occurs_at(lw, pat, from) {
            assert(lw.subrange(from, from + pat.len())[m] == lw[from + m]);
        }
        lemma_first_label_absent(lw, cased, pat, m, lo, from + 1);
    }
}

/// No pattern found: no labelled value.
proof fn lemma_best_label_none(lw: Seq<char>, cased: Seq<char>, pats: Seq<Seq<char>>, from: int)
    requires
        forall|j: int| 0 <= j < pats.len() ==> first_label(lw, cased, #[trigger] pats[j], from) == -1,
    ensures
        best_label(lw, cased, pats, from) is None,
    decreases pats.len(),
{
    if pats.len() > 0 {
        let d = pats.drop_last();
        assert forall|j: int| 0 <= j < d.len() implies first_label(lw, cased, #[trigger] d[j], from) == -1 by {
            assert(d[j] == pats[j]);
        }
        lemma_best_label_none(lw, cased, d, from);
    }
}

/// Every pattern found lies beyond `q`: so does the labelled value.
proof fn lemma_best_label_beyond(lw: Seq<char>, cased: Seq<char>, pats: Seq<Seq<char>>, q: int)
    requires
        forall|j: int| 0 <= j < pats.len() ==> first_label(lw, cased, #[trigger] pats[j], 0) == -1
            || first_label(lw, cased, pats[j], 0) > q,
    ensures
        best_label(lw, cased, pats, 0) matches Some(b) ==> b.0 > q,
    decreases pats.len(),
{
    if pats.len() > 0 {
        let d = pats.drop_last();
        assert forall|j: int| 0 <= j < d.len() implies first_label(lw, cased, #[trigger] d[j], 0) == -1
            || first_label(lw, cased, d[j], 0) > q by {
            assert(d[j] == pats[j]);
        }
        lemma_best_label_beyond(lw, cased, d, q);
    }
}

/// The first pattern found at the earliest position `q` gives the labelled
/// value.
proof fn lemma_best_label_at(lw: Seq<char>, cased: Seq<char>, pats: Seq<Seq<char>>, k: int, q: int)
    requires
        0 <= k < pats.len(),
        0 <= q,
        first_label(lw, cased, pats[k], 0) == q,
        forall|j: int| 0 <= j < pats.len() ==> first_label(lw, cased, #[trigger] pats[j], 0) == -1
            || first_label(lw, cased, pats[j], 0) >= q,
        forall|j: int| 0 <= j < k ==> first_label(lw, cased, #[trigger] pats[j], 0) != q,
    ensures
        best_label(lw, cased, pats, 0) == Some((q, q + pats[k].len())),
    decreases pats.len(),
{
    let d = pats.drop_last();
    if k == pats.len() - 1 {
        assert forall|j: int| 0 <= j < d.len() implies first_label(lw, cased, #[trigger] d[j], 0) == -1
            || first_label(lw, cased, d[j], 0) > q by {
            assert(d[j] == pats[j]);
        }
        lemma_best_label_beyond(lw, cased, d, q);
    } else {
        assert(d[k] == pats[k]);
        assert forall|j: int| 0 <= j < d.len() implies first_label(lw, cased, #[trigger] d[j], 0) == -1
            || first_label(lw, cased, d[j], 0) >= q by {
            assert(d[j] == pats[j]);
        }
        assert forall|j: int| 0 <= j < k implies first_label(lw, cased, #[trigger] d[j], 0) != q by {
            assert(d[j] == pats[j]);
        }
        lemma_best_label_at(lw, cased, d, k, q);
    }
}

/// An unquoted value without a stop character runs to the end.
proof fn lemma_first_stop_at_end(s: Seq<char>, from: int)
    requires
        0 <= from <= s.len(),
        forall|i: int| from <= i < s.len() ==> !value_stop(s[i]),
    ensures
        first_stop_from(s, from) == s.len(),
    decreases s.len() - from,
{
    if from < s.len() {
        lemma_first_stop_at_end(s, from + 1);
    }
}

/// What the law asks of the text before a label: empty, or ending in a
/// space and holding neither `=` nor `:`.
pub open spec fn plain_prefix(pre: Seq<char>) -> bool {
    &&& pre.len() > 0 ==> pre.last() == ' '
    &&& forall|i: int| 0 <= i < pre.len() ==> pre[i] != '=' && pre[i] != ':'
}

/// What the law asks of a value: it does not open with a quote and holds
/// no character that ends a value.
pub open spec fn plain_value(v: Seq<char>) -> bool {
    &&& v.len() > 0 ==> v[0] != '"' && v[0] != '\''
    &&& forall|i: int| 0 <= i < v.len() ==> !value_stop(#[trigger] v[i])
}

proof fn lemma_prefix_lowered(pre: Seq<char>, rest: Seq<char>)
    requires
        plain_prefix(pre),
    ensures
        pre.len() > 0 ==> lower(pre + rest)[pre.len() - 1] == ' ',
        forall|i: int| 0 <= i < pre.len() ==> lower(pre + rest)[i] != '=' && lower(pre + rest)[i] != ':',
{
    assert forall|i: int| 0 <= i < pre.len() implies lower(pre + rest)[i] != '=' && lower(pre + rest)[i] != ':' by {
        assert((pre + rest)[i] == pre[i]);
    }
    if pre.len() > 0 {
        assert((pre + rest)[pre.len() - 1] == pre.last());
    }
}

/// At the label, no pattern of an earlier label occurs.
proof fn lemma_earlier_patterns_miss(pre: Seq<char>, k: int, sep: char, v: Seq<char>)
    requires
        0 <= k < 8,
    ensures
        ({
            let s = pre + secret_labels()[k] + seq![sep] + v;
            forall|j: int| 0 <= j < 2 * k ==> !occurs_at(lower(s), #[trigger] label_patterns(secret_labels())[j], pre.len() as int)
        }),
{
    reveal_strlit("token");
    reveal_strlit("secret");
    reveal_strlit("password");
    reveal_strlit("passwd");
    reveal_strlit("credential");
    reveal_strlit("api_key");
    reveal_strlit("access_token");
    reveal_strlit("authorization");
    reveal_strlit("=");
    reveal_strlit(":");
    let label = secret_labels()[k];
    let s = pre + label + seq![sep] + v;
    let q: int = pre.len() as int;
    let pats = label_patterns(secret_labels());
    lemma_label_patterns(secret_labels());
    let lw = lower(s);
    assert(s =~= pre + (label + seq![sep] + v));
    assert(forall|i: int| 0 <= i < label.len() ==> lw[q + i] == #[trigger] label[i]);
    assert forall|j: int| 0 <= j < 2 * k implies !occurs_at(lw, #[trigger] pats[j], q) by {
        if k == 0 {
        } else if k == 1 {
            lemma_not_at(lw, pats[0], q, 0);
            lemma_not_at(lw, pats[1], q, 0);
        } else if k == 2 {
            lemma_not_at(lw, pats[0], q, 0);
            lemma_not_at(lw, pats[1], q, 0);
            lemma_not_at(lw, pats[2], q, 0);
            lemma_not_at(lw, pats[3], q, 0);
        } else if k == 3 {
            lemma_not_at(lw, pats[0], q, 0);
            lemma_not_at(lw, pats[1], q, 0);
            lemma_not_at(lw, pats[2], q, 0);
            lemma_not_at(lw, pats[3], q, 0);
            lemma_not_at(lw, pats[4], q, 5);
            lemma_not_at(lw, pats[5], q, 5);
        } else if k == 4 {
            lemma_not_at(lw, pats[0], q, 0);
            lemma_not_at(lw, pats[1], q, 0);
            lemma_not_at(lw, pats[2], q, 0);
            lemma_not_at(lw, pats[3], q, 0);
            lemma_not_at(lw, pats[4], q, 0);
            lemma_not_at(lw, pats[5], q, 0);
            lemma_not_at(lw, pats[6], q, 0);
            lemma_not_at(lw, pats[7], q, 0);
        } else if k == 5 {
            lemma_not_at(lw, pats[0], q, 0);
            lemma_not_at(lw, pats[1], q, 0);
            lemma_not_at(lw, pats[2], q, 0);
            lemma_not_at(lw, pats[3], q, 0);
            lemma_not_at(lw, pats[4], q, 0);
            lemma_not_at(lw, pats[5], q, 0);
            lemma_not_at(lw, pats[6], q, 0);
            lemma_not_at(lw, pats[7], q, 0);
            lemma_not_at(lw, pats[8], q, 0);
            lemma_not_at(lw, pats[9], q, 0);
        } else if k == 6 {
            lemma_not_at(lw, pats[0], q, 0);
            lemma_not_at(lw, pats[1], q, 0);
            lemma_not_at(lw, pats[2], q, 0);
            lemma_not_at(lw, pats[3], q, 0);
            lemma_not_at(lw, pats[4], q, 0);
            lemma_not_at(lw, pats[5], q, 0);
            lemma_not_at(lw, pats[6], q, 0);
            lemma_not_at(lw, pats[7], q, 0);
            lemma_not_at(lw, pats[8], q, 0);
            lemma_not_at(lw, pats[9], q, 0);
            lemma_not_at(lw, pats[10], q, 1);
            lemma_not_at(lw, pats[11], q, 1);
        } else if k == 7 {
            lemma_not_at(lw, pats[0], q, 0);
            lemma_not_at(lw, pats[1], q, 0);
            lemma_not_at(lw, pats[2], q, 0);
            lemma_not_at(lw, pats[3], q, 0);
            lemma_not_at(lw, pats[4], q, 0);
            lemma_not_at(lw, pats[5], q, 0);
            lemma_not_at(lw, pats[6], q, 0);
            lemma_not_at(lw, pats[7], q, 0);
            lemma_not_at(lw, pats[8], q, 0);
            lemma_not_at(lw, pats[9], q, 0);
            lemma_not_at(lw, pats[10], q, 1);
            lemma_not_at(lw, pats[11], q, 1);
            lemma_not_at(lw, pats[12], q, 1);
            lemma_not_at(lw, pats[13], q, 1);
        }
    }
}

/// The secret label `k` after a plain prefix is the labelled value found.
proof fn lemma_secret_label_found(pre: Seq<char>, k: int, sep: char, v: Seq<char>)
    requires
        0 <= k < 8,
        sep == '=' || sep == ':',
        plain_prefix(pre),
    ensures
        ({
            let s = pre + secret_labels()[k] + seq![sep] + v;
            best_label(lower(s), s, label_patterns(secret_labels()), 0)
                == Some((pre.len() as int, pre.len() + secret_labels()[k].len() as int + 1))
        }),
{
    reveal_strlit("token");
    reveal_strlit("secret");
    reveal_strlit("password");
    reveal_strlit("passwd");
    reveal_strlit("credential");
    reveal_strlit("api_key");
    reveal_strlit("access_token");
    reveal_strlit("authorization");
    reveal_strlit("=");
    reveal_strlit(":");
    let label = secret_labels()[k];
    let s = pre + label + seq![sep] + v;
    let q: int = pre.len() as int;
    let pats = label_patterns(secret_labels());
    lemma_label_patterns(secret_labels());
    let lw = lower(s);
    lemma_prefix_lowered(pre, label + seq![sep] + v);
    assert(s =~= pre + (label + seq![sep] + v));
    assert(forall|i: int| 0 <= i < label.len() ==> lw[q + i] == #[trigger] label[i]);
    assert(lw[q + label.len()] == sep);
    let j0 = if sep == '=' { 2 * k } else { 2 * k + 1 };
    assert(pats[j0] == label + seq![sep]);
    assert(lw.subrange(q, q + label.len() + 1) =~= label + seq![sep]);
    assert(q > 0 ==> s[q - 1] == ' ');
    assert(label_ok(lw, s, pats[j0], q));
    assert forall|j: int| 0 <= j < pats.len() implies first_label(lw, s, #[trigger] pats[j], 0)
        == first_label(lw, s, pats[j], q) by {
        let t = j / 2;
        assert(pats[2 * t] == secret_labels()[t] + "="@);
        assert(forall|i: int| 0 <= i < pats[j].len() ==> pats[j][i] != ' ');
        assert forall|p: int| 0 <= p < q implies !occurs_at(lw, pats[j], p) by {
            lemma_no_label_in_prefix(lw, pats[j], q, p);
        }
        lemma_first_label_from(lw, s, pats[j], 0, q);
    }
    assert forall|j: int| 0 <= j < pats.len() implies first_label(lw, s, #[trigger] pats[j], 0) == -1
        || first_label(lw, s, pats[j], 0) >= q by {
        lemma_first_label_ge(lw, s, pats[j], q);
    }
    lemma_earlier_patterns_miss(pre, k, sep, v);
    assert forall|j: int| 0 <= j < j0 implies first_label(lw, s, #[trigger] pats[j], 0) != q by {
        if j == 2 * k {
            lemma_not_at(lw, pats[j], q, label.len() as int);
        }
        lemma_first_label_ge(lw, s, pats[j], q + 1);
    }
    lemma_best_label_at(lw, s, pats, j0, q);
}

/// The secret pass replaces the whole value after the label.
proof fn lemma_secret_pass(pre: Seq<char>, k: int, sep: char, v: Seq<char>)
    requires
        0 <= k < 8,
        sep == '=' || sep == ':',
        plain_prefix(pre),
        plain_value(v),
    ensures
        redact_from(pre + secret_labels()[k] + seq![sep] + v, label_patterns(secret_labels()), "<redacted>"@, 0)
            == pre + secret_labels()[k] + seq![sep] + "<redacted>"@,
{
    let label = secret_labels()[k];
    let s = pre + label + seq![sep] + v;
    let le: int = pre.len() + label.len() as int + 1;
    let pats = label_patterns(secret_labels());
    lemma_secret_label_found(pre, k, sep, v);
    assert(quote_at(s, le) is None);
    assert forall|i: int| le <= i < s.len() implies !value_stop(s[i]) by {
        assert(s[i] == v[i - le]);
    }
    lemma_first_stop_at_end(s, le);
    assert(redact_from(s, pats, "<redacted>"@, s.len() as int) == Seq::<char>::empty());
    assert(s.subrange(0, le) =~= pre + label + seq![sep]);
}

/// The user pass leaves a redacted secret after a plain prefix alone.
proof fn lemma_user_pass_keeps(pre: Seq<char>, k: int, sep: char)
    requires
        0 <= k < 8,
        sep == '=' || sep == ':',
        plain_prefix(pre),
    ensures
        ({
            let b = pre + secret_labels()[k] + seq![sep] + "<redacted>"@;
            redact_from(b, label_patterns(user_labels()), "<user>"@, 0) == b
        }),
{
    reveal_strlit("token");
    reveal_strlit("secret");
    reveal_strlit("password");
    reveal_strlit("passwd");
    reveal_strlit("credential");
    reveal_strlit("api_key");
    reveal_strlit("access_token");
    reveal_strlit("authorization");
    reveal_strlit("<redacted>");
    reveal_strlit("user");
    reveal_strlit("username");
    reveal_strlit("=");
    reveal_strlit(":");
    let tail = secret_labels()[k] + seq![sep] + "<redacted>"@;
    let b = pre + secret_labels()[k] + seq![sep] + "<redacted>"@;
    assert(b =~= pre + tail);
    let q: int = pre.len() as int;
    let upats = label_patterns(user_labels());
    lemma_label_patterns(user_labels());
    let lb = lower(b);
    lemma_prefix_lowered(pre, tail);
    let c = if k == 7 { 's' } else { 'u' };
    let m: int = if k == 7 { 1 } else { 0 };
    assert(forall|i: int| 0 <= i < tail.len() ==> crate::text::lower_char(tail[i]) != c);
    assert forall|i: int| q <= i < lb.len() implies lb[i] != c by {
        assert(b[i] == tail[i - q]);
    }
    assert forall|j: int| 0 <= j < upats.len() implies first_label(lb, b, #[trigger] upats[j], 0) == -1 by {
        let t = j / 2;
        assert(upats[2 * t] == user_labels()[t] + "="@);
        assert(upats[j][m] == c);
        assert(forall|i: int| 0 <= i < upats[j].len() ==> upats[j][i] != ' ');
        assert forall|p: int| 0 <= p < q implies !occurs_at(lb, upats[j], p) by {
            lemma_no_label_in_prefix(lb, upats[j], q, p);
        }
        lemma_first_label_from(lb, b, upats[j], 0, q);
        lemma_first_label_absent(lb, b, upats[j], m, q, q);
    }
    lemma_best_label_none(lb, b, upats, 0);
    assert(b.subrange(0, b.len() as int) =~= b);
}

/// A secret never reaches a shared report: for each label of the fixed list
/// token, secret, password, passwd, credential, api_key, access_token and
/// authorization, a text `label=value` or `label:value`, after a plain
/// prefix (empty, or ending in a space and without `=` or `:`) and with a
/// value that does not open with a quote and holds no character that ends
/// a value, is shared with the value replaced by `<redacted>`, whatever the
/// prefix and the value.
pub proof fn law_secret_values_are_redacted(pre: Seq<char>, k: int, sep: char, v: Seq<char>, o: RedactionOptions)
    requires
        0 <= k < 8,
        sep == '=' || sep == ':',
        plain_prefix(pre),
        plain_value(v),
        o.home is None,
        !o.suppress_hostname,
    ensures
        ({
            let labels = seq![
                "token"@, "secret"@, "password"@, "passwd"@, "credential"@, "api_key"@, "access_token"@,
                "authorization"@,
            ];
            redact_text_spec(pre + labels[k] + seq![sep] + v, o) == pre + labels[k] + seq![sep] + "<redacted>"@
        }),
{
    let labels = seq![
        "token"@, "secret"@, "password"@, "passwd"@, "credential"@, "api_key"@, "access_token"@,
        "authorization"@,
    ];
    assert(labels == secret_labels());
    let s = pre + labels[k] + seq![sep] + v;
    assert(normalize_home_spec(s, opt_str_view(o.home)) == s);
    lemma_secret_pass(pre, k, sep, v);
    lemma_user_pass_keeps(pre, k, sep);
}

} // verus!
