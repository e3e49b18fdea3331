//! Opt-in journal evidence: which units may be queried, how a record is
//! classified, and how its message is sanitized before it is kept.
use vstd::prelude::*;
use crate::model::journal::{
    JournalClassification, JournalEntry, JournalInfo, JournalMatchState, JOURNAL_MODEL_VERSION,
};
use crate::json::{json_as_str, json_as_u64, json_member, member, member_text, parse_json, parsed_text, text_of, u64_of, Json};
use crate::probes::portal::{contains_any, contains_any_of};
use crate::text::{opt_view, 
    append, chars_of, concat2, contains_seq, contains_str, ends_with, ends_with_str, eq_ignore_ascii_case, eq_str,
    insert_sorted, is_whitespace, is_ws, join, join_strings, lower, push_char, sorted_strict, split_once,
    split_once_seq, starts_with, starts_with_str, string_from, to_ascii_lowercase, views, trim, trim_str, lines,
    lines_seq, decimal, push_decimal, is_ascii_digit,
};

verus! {

/// Current-boot journal window of the collector, in minutes.
pub const JOURNAL_WINDOW_MINUTES: u64 = 30;

/// Maximum number of records requested and parsed.
pub const JOURNAL_MAX_ENTRIES: usize = 80;

pub const JOURNAL_COMMAND: &'static str = "journalctl";

/// Byte limit on `journalctl` output before parsing (512 KiB).
pub const JOURNAL_OUTPUT_LIMIT: usize = 524288;

/// Characters kept of a sanitized message.
pub const MAX_MESSAGE_LENGTH: usize = 240;

/// Least severe priority kept (`warning`).
pub const MAX_PRIORITY: u8 = 4;

pub open spec fn fixed_units() -> Seq<Seq<char>> {
    seq!["pipewire.service"@, "pipewire-pulse.service"@, "wireplumber.service"@, "xdg-desktop-portal.service"@]
}

/// The portal and media units whose journal may be read: four fixed units
/// and every `xdg-desktop-portal-*.service` backend.
pub open spec fn allowlisted(unit: Seq<char>) -> bool {
    fixed_units().contains(unit) || (starts_with(unit, "xdg-desktop-portal-"@) && ends_with(unit, ".service"@))
}

pub fn is_allowlisted_unit(unit: &str) -> (r: bool)
    ensures
        r == allowlisted(unit@),
{
    let fixed = eq_str(unit, "pipewire.service") || eq_str(unit, "pipewire-pulse.service") || eq_str(
        unit,
        "wireplumber.service",
    ) || eq_str(unit, "xdg-desktop-portal.service");
    proof {
        if fixed_units().contains(unit@) {
            let k = choose|k: int| 0 <= k < 4 && fixed_units()[k] == unit@;
            assert(k == 0 || k == 1 || k == 2 || k == 3);
        }
        if fixed {
            if unit@ == "pipewire.service"@ {
                assert(fixed_units()[0] == unit@);
            } else if unit@ == "pipewire-pulse.service"@ {
                assert(fixed_units()[1] == unit@);
            } else if unit@ == "wireplumber.service"@ {
                assert(fixed_units()[2] == unit@);
            } else {
                assert(fixed_units()[3] == unit@);
            }
        }
    }
    fixed || (starts_with_str(unit, "xdg-desktop-portal-") && ends_with_str(unit, ".service"))
}

/// The requested units that may be queried, sorted and each listed once.
pub fn allowlisted_units(units: &Vec<String>) -> (r: Vec<String>)
    ensures
        sorted_strict(views(r@)),
        forall|x: Seq<char>| #[trigger] views(r@).contains(x) <==> (views(units@).contains(x) && allowlisted(x)),
{
    let mut selected: Vec<String> = Vec::new();
    let mut i: usize = 0;
    while i < units.len()
        invariant
            i <= units@.len(),
            sorted_strict(views(selected@)),
            forall|x: Seq<char>| #[trigger] views(selected@).contains(x) <==> (views(units@).take(i as int).contains(x)
                && allowlisted(x)),
        decreases units@.len() - i,
    {
        let ghost before = views(selected@);
        let u = units[i].as_str();
        assert(views(units@).take(i + 1) =~= views(units@).take(i as int).push(u@));
        if is_allowlisted_unit(u) {
            insert_sorted(&mut selected, u);
        }
        proof {
            let t = views(units@).take(i as int);
            assert forall|x: Seq<char>| #[trigger] t.push(u@).contains(x) <==> (t.contains(x) || x == u@) by {
                if t.push(u@).contains(x) {
                    let k = choose|k: int| 0 <= k < t.len() + 1 && t.push(u@)[k] == x;
                    if k < t.len() {
                        assert(t[k] == x);
                    }
                }
                if t.contains(x) {
                    let k = choose|k: int| 0 <= k < t.len() && t[k] == x;
                    assert(t.push(u@)[k] == x);
                }
                if x == u@ {
                    assert(t.push(u@)[t.len() as int] == x);
                }
            }
        }
        i = i + 1;
    }
    assert(views(units@).take(i as int) =~= views(units@));
    selected
}

/// `journalctl` arguments: the user journal of the current boot, the last
/// 30 minutes, JSON, at most 80 lines, then `--unit` for each unit.
pub open spec fn base_arguments() -> Seq<Seq<char>> {
    seq!["--user"@, "--boot=0"@, "--since=-30min"@, "--output=json"@, "--no-pager"@, "--quiet"@, "--lines=80"@]
}

pub open spec fn unit_arguments(units: Seq<Seq<char>>) -> Seq<Seq<char>>
    decreases units.len(),
{
    if units.len() == 0 {
        Seq::empty()
    } else {
        unit_arguments(units.drop_last()) + seq!["--unit"@, units.last()]
    }
}

pub fn journal_arguments(units: &Vec<String>) -> (r: Vec<String>)
    ensures
        views(r@) == base_arguments() + unit_arguments(views(units@)),
{
    let mut args: Vec<String> = Vec::new();
    args.push("--user".to_owned());
    args.push("--boot=0".to_owned());
    args.push("--since=-30min".to_owned());
    args.push("--output=json".to_owned());
    args.push("--no-pager".to_owned());
    args.push("--quiet".to_owned());
    args.push("--lines=80".to_owned());
    assert(views(args@) =~= base_arguments());
    let mut i: usize = 0;
    while i < units.len()
        invariant
            i <= units@.len(),
            views(args@) == base_arguments() + unit_arguments(views(units@).take(i as int)),
        decreases units@.len() - i,
    {
        let ghost before = views(args@);
        let flag = "--unit".to_owned();
        let unit = units[i].as_str().to_owned();
        args.push(flag);
        args.push(unit);
        assert(views(units@).take(i + 1).drop_last() =~= views(units@).take(i as int));
        assert(views(args@) =~= before + seq![flag@, unit@]);
        i = i + 1;
    }
    assert(views(units@).take(i as int) =~= views(units@));
    args
}

pub open spec fn error_markers() -> Seq<Seq<char>> {
    seq![
        "error"@, "failed"@, "failure"@, "unavailable"@, "unreachable"@, "timed out"@, "timeout"@, "refused"@,
        "cannot"@, "could not"@, "unable"@, "not found"@, "no such"@,
    ]
}

/// Whether a (lower-cased) message names an error.
pub fn has_error_marker(message: &str) -> (r: bool)
    ensures
        r == contains_any(message@, error_markers()),
{
    let markers: Vec<&str> = vec![
        "error", "failed", "failure", "unavailable", "unreachable", "timed out", "timeout", "refused", "cannot",
        "could not", "unable", "not found", "no such",
    ];
    assert(markers@.map_values(|p: &str| p@) =~= error_markers());
    contains_any_of(message, &markers)
}

/// The class of an error message from a unit: by what the message names
/// first (ScreenCast, WirePlumber, PipeWire, the portal), else by the unit.
/// A message without an error marker is not classified.
pub open spec fn classify_spec(message: Seq<char>, unit: Seq<char>) -> Option<JournalClassification> {
    let l = lower(message);
    if !contains_any(l, error_markers()) {
        None
    } else if contains_seq(l, "screencast"@) || contains_seq(l, "screen cast"@) {
        Some(JournalClassification::ScreenCast)
    } else if contains_seq(l, "wireplumber"@) {
        Some(JournalClassification::WirePlumber)
    } else if contains_seq(l, "pipewire"@) {
        Some(JournalClassification::PipeWire)
    } else if contains_seq(l, "xdg-desktop-portal"@) || contains_seq(l, "portal"@) {
        Some(JournalClassification::Portal)
    } else if unit == "wireplumber.service"@ {
        Some(JournalClassification::WirePlumber)
    } else if unit == "pipewire.service"@ || unit == "pipewire-pulse.service"@ {
        Some(JournalClassification::PipeWire)
    } else if unit == "xdg-desktop-portal.service"@ || (starts_with(unit, "xdg-desktop-portal-"@) && ends_with(
        unit,
        ".service"@,
    )) {
        Some(JournalClassification::Portal)
    } else {
        None
    }
}

pub fn classify_message(message: &str, unit: &str) -> (r: Option<JournalClassification>)
    ensures
        r == classify_spec(message@, unit@),
{
    let l = to_ascii_lowercase(message);
    let l = l.as_str();
    if !has_error_marker(l) {
        None
    } else if contains_str(l, "screencast") || contains_str(l, "screen cast") {
        Some(JournalClassification::ScreenCast)
    } else if contains_str(l, "wireplumber") {
        Some(JournalClassification::WirePlumber)
    } else if contains_str(l, "pipewire") {
        Some(JournalClassification::PipeWire)
    } else if contains_str(l, "xdg-desktop-portal") || contains_str(l, "portal") {
        Some(JournalClassification::Portal)
    } else if eq_str(unit, "wireplumber.service") {
        Some(JournalClassification::WirePlumber)
    } else if eq_str(unit, "pipewire.service") || eq_str(unit, "pipewire-pulse.service") {
        Some(JournalClassification::PipeWire)
    } else if eq_str(unit, "xdg-desktop-portal.service") || (starts_with_str(unit, "xdg-desktop-portal-")
        && ends_with_str(unit, ".service")) {
        Some(JournalClassification::Portal)
    } else {
        None
    }
}

/// `char::is_control`: the C0 and C1 control characters.
pub open spec fn is_control(c: char) -> bool {
    c <= '\u{1f}' || ('\u{7f}' <= c && c <= '\u{9f}')
}

/// Control characters replaced by spaces.
pub open spec fn decontrol(s: Seq<char>) -> Seq<char> {
    s.map_values(|c: char| if is_control(c) { ' ' } else { c })
}

/// A character that belongs to a token: not whitespace and not one of
/// the delimiters `,;:()[]{}<>"'`.
pub open spec fn is_token_char(c: char) -> bool {
    !is_ws(c) && c != ',' && c != ';' && c != ':' && c != '(' && c != ')' && c != '[' && c != ']' && c != '{'
        && c != '}' && c != '<' && c != '>' && c != '"' && c != '\''
}

fn token_char(c: char) -> (r: bool)
    ensures
        r == is_token_char(c),
{
    !is_whitespace(c) && c != ',' && c != ';' && c != ':' && c != '(' && c != ')' && c != '[' && c != ']' && c
        != '{' && c != '}' && c != '<' && c != '>' && c != '"' && c != '\''
}

/// The end of the run of token characters that starts at `i`.
pub open spec fn token_end(s: Seq<char>, i: int) -> int
    decreases s.len() - i,
{
    if i < 0 || i >= s.len() || !is_token_char(s[i]) {
        i
    } else {
        token_end(s, i + 1)
    }
}

proof fn lemma_token_end(s: Seq<char>, i: int, j: int)
    requires
        0 <= i <= j <= s.len(),
        forall|k: int| i <= k < j ==> is_token_char(#[trigger] s[k]),
        j == s.len() || !is_token_char(s[j]),
    ensures
        token_end(s, i) == j,
    decreases j - i,
{
    if i < j {
        lemma_token_end(s, i + 1, j);
    }
}

pub proof fn lemma_token_end_bounds(s: Seq<char>, i: int)
    requires
        0 <= i <= s.len(),
    ensures
        i <= token_end(s, i) <= s.len(),
    decreases s.len() - i,
{
    if i < s.len() && is_token_char(s[i]) {
        lemma_token_end_bounds(s, i + 1);
    }
}

/// How the sanitizer rewrites a token.
#[derive(Debug, Clone, Copy, PartialEq, Eq, Structural)]
pub enum TokenRule {
    /// `name@host`-shaped identities become `<identity>`.
    Identities,
    /// `user=`, `username=`, `host=`, `hostname=` and `machine=` values
    /// (label matched case-insensitively) become `<redacted>`.
    Labels,
}

pub open spec fn identity_token(t: Seq<char>) -> bool {
    split_once_seq(t, '@') matches Some((l, r)) && l.len() > 0 && r.len() > 0
}

pub open spec fn private_label(key: Seq<char>) -> bool {
    let k = lower(key);
    k == "user"@ || k == "username"@ || k == "host"@ || k == "hostname"@ || k == "machine"@
}

pub open spec fn rewrite_token(rule: TokenRule, t: Seq<char>) -> Seq<char> {
    match rule {
        TokenRule::Identities => if identity_token(t) { "<identity>"@ } else { t },
        TokenRule::Labels => match split_once_seq(t, '=') {
            Some((key, _)) => if private_label(key) { key + "=<redacted>"@ } else { t },
            None => t,
        },
    }
}

/// `s` from `i` on, each maximal token rewritten by `rule` and every other
/// character kept.
pub open spec fn map_tokens(s: Seq<char>, i: int, rule: TokenRule) -> Seq<char>
    decreases s.len() - i,
{
    if i < 0 || i >= s.len() {
        Seq::empty()
    } else if !is_token_char(s[i]) {
        seq![s[i]] + map_tokens(s, i + 1, rule)
    } else {
        let e = token_end(s, i + 1);
        proof {
            lemma_token_end_bounds(s, i + 1);
        }
        rewrite_token(rule, s.subrange(i, e)) + map_tokens(s, e, rule)
    }
}

fn rewrite(rule: TokenRule, token: &str) -> (r: String)
    ensures
        r@ == rewrite_token(rule, token@),
{
    match rule {
        TokenRule::Identities => match split_once(token, '@') {
            Some((l, r)) => if l.as_str().unicode_len() > 0 && r.as_str().unicode_len() > 0 {
                "<identity>".to_owned()
            } else {
                token.to_owned()
            },
            None => token.to_owned(),
        },
        TokenRule::Labels => match split_once(token, '=') {
            Some((key, _)) => {
                let k = key.as_str();
                proof {
                    reveal_strlit("user");
                    reveal_strlit("username");
                    reveal_strlit("host");
                    reveal_strlit("hostname");
                    reveal_strlit("machine");
                    assert(lower("user"@) =~= "user"@);
                    assert(lower("username"@) =~= "username"@);
                    assert(lower("host"@) =~= "host"@);
                    assert(lower("hostname"@) =~= "hostname"@);
                    assert(lower("machine"@) =~= "machine"@);
                }
                if eq_ignore_ascii_case(k, "user") || eq_ignore_ascii_case(k, "username") || eq_ignore_ascii_case(
                    k,
                    "host",
                ) || eq_ignore_ascii_case(k, "hostname") || eq_ignore_ascii_case(k, "machine") {
                    concat2(k, "=<redacted>")
                } else {
                    token.to_owned()
                }
            },
            None => token.to_owned(),
        },
    }
}

/// Rewrite every maximal token of `text` by `rule`.
pub fn redact_tokens(text: &str, rule: TokenRule) -> (r: String)
    ensures
        r@ == map_tokens(text@, 0, rule),
{
    let cs = chars_of(text);
    let n = cs.len();
    let mut out = String::new();
    let mut i: usize = 0;
    while i < n
        invariant
            cs@ == text@,
            n == cs@.len(),
            i <= n,
            out@ + map_tokens(text@, i as int, rule) == map_tokens(text@, 0, rule),
        decreases n - i,
    {
        if !token_char(cs[i]) {
            let ghost before = out@;
            push_char(&mut out, cs[i]);
            assert(before + map_tokens(text@, i as int, rule) == before + (seq![cs@[i as int]] + map_tokens(
                text@,
                i + 1,
                rule,
            )));
            assert(out@ + map_tokens(text@, i + 1, rule) =~= before + (seq![cs@[i as int]] + map_tokens(
                text@,
                i + 1,
                rule,
            )));
            i = i + 1;
        } else {
            let start = i;
            let mut j: usize = i + 1;
            while j < n && token_char(cs[j])
                invariant
                    cs@ == text@,
                    n == cs@.len(),
                    start < j <= n,
                    forall|k: int| start + 1 <= k < j ==> is_token_char(#[trigger] cs@[k]),
                decreases n - j,
            {
                j = j + 1;
            }
            proof {
                lemma_token_end(text@, start + 1, j as int);
            }
            let token = string_from(&cs, start, j);
            let replaced = rewrite(rule, token.as_str());
            let ghost before = out@;
            append(&mut out, replaced.as_str());
            assert(map_tokens(text@, start as int, rule) == rewrite_token(rule, text@.subrange(start as int, j as int))
                + map_tokens(text@, j as int, rule));
            assert(out@ + map_tokens(text@, j as int, rule) =~= before + map_tokens(text@, start as int, rule));
            i = j;
        }
    }
    assert(map_tokens(text@, n as int, rule) =~= Seq::<char>::empty());
    assert(out@ =~= out@ + map_tokens(text@, n as int, rule));
    out
}

/// A character before which a `/` starts an absolute path.
pub open spec fn is_path_boundary(c: char) -> bool {
    is_ws(c) || c == '=' || c == ':' || c == ',' || c == '(' || c == '[' || c == '{' || c == '"' || c == '\''
        || c == '|'
}

/// A character that ends a path.
pub open spec fn is_path_stop(c: char) -> bool {
    is_ws(c) || c == ',' || c == ';' || c == ':' || c == '!' || c == '?' || c == ')' || c == ']' || c == '}' || c
        == '"' || c == '\''
}

fn path_boundary(c: char) -> (r: bool)
    ensures
        r == is_path_boundary(c),
{
    is_whitespace(c) || c == '=' || c == ':' || c == ',' || c == '(' || c == '[' || c == '{' || c == '"' || c
        == '\'' || c == '|'
}

fn path_stop(c: char) -> (r: bool)
    ensures
        r == is_path_stop(c),
{
    is_whitespace(c) || c == ',' || c == ';' || c == ':' || c == '!' || c == '?' || c == ')' || c == ']' || c
        == '}' || c == '"' || c == '\''
}

/// An absolute path starts at `i`: a `/` at the start or after a boundary,
/// not followed by another `/`.
pub open spec fn path_start(s: Seq<char>, i: int) -> bool {
    &&& s[i] == '/'
    &&& (i == 0 || is_path_boundary(s[i - 1]))
    &&& !(i + 1 < s.len() && s[i + 1] == '/')
}

pub open spec fn path_end(s: Seq<char>, j: int) -> int
    decreases s.len() - j,
{
    if j < 0 || j >= s.len() || is_path_stop(s[j]) {
        j
    } else {
        path_end(s, j + 1)
    }
}

proof fn lemma_path_end(s: Seq<char>, i: int, j: int)
    requires
        0 <= i <= j <= s.len(),
        forall|k: int| i <= k < j ==> !is_path_stop(#[trigger] s[k]),
        j == s.len() || is_path_stop(s[j]),
    ensures
        path_end(s, i) == j,
    decreases j - i,
{
    if i < j {
        lemma_path_end(s, i + 1, j);
    }
}

pub proof fn lemma_path_end_bounds(s: Seq<char>, i: int)
    requires
        0 <= i <= s.len(),
    ensures
        i <= path_end(s, i) <= s.len(),
    decreases s.len() - i,
{
    if i < s.len() && !is_path_stop(s[i]) {
        lemma_path_end_bounds(s, i + 1);
    }
}

/// `s` from `i` on, every absolute path replaced by `<path>`.
pub open spec fn strip_paths(s: Seq<char>, i: int) -> Seq<char>
    decreases s.len() - i,
{
    if i < 0 || i >= s.len() {
        Seq::empty()
    } else if path_start(s, i) {
        let e = path_end(s, i + 1);
        proof {
            lemma_path_end_bounds(s, i + 1);
        }
        "<path>"@ + strip_paths(s, e)
    } else {
        seq![s[i]] + strip_paths(s, i + 1)
    }
}

/// Replace every absolute path of `text` by `<path>`.
pub fn redact_absolute_paths(text: &str) -> (r: String)
    ensures
        r@ == strip_paths(text@, 0),
{
    let cs = chars_of(text);
    let n = cs.len();
    let mut out = String::new();
    let mut i: usize = 0;
    while i < n
        invariant
            cs@ == text@,
            n == cs@.len(),
            i <= n,
            out@ + strip_paths(text@, i as int) == strip_paths(text@, 0),
        decreases n - i,
    {
        let starts = cs[i] == '/' && (i == 0 || path_boundary(cs[i - 1])) && !(i + 1 < n && cs[i + 1] == '/');
        if !starts {
            let ghost before = out@;
            push_char(&mut out, cs[i]);
            assert(out@ + strip_paths(text@, i + 1) =~= before + strip_paths(text@, i as int));
            i = i + 1;
        } else {
            let start = i;
            let mut j: usize = i + 1;
            while j < n && !path_stop(cs[j])
                invariant
                    cs@ == text@,
                    n == cs@.len(),
                    start < j <= n,
                    forall|k: int| start + 1 <= k < j ==> !is_path_stop(#[trigger] cs@[k]),
                decreases n - j,
            {
                j = j + 1;
            }
            proof {
                lemma_path_end(text@, start + 1, j as int);
            }
            let ghost before = out@;
            append(&mut out, "<path>");
            assert(out@ + strip_paths(text@, j as int) =~= before + strip_paths(text@, start as int));
            i = j;
        }
    }
    assert(out@ =~= out@ + strip_paths(text@, n as int));
    out
}

/// The end of the run of non-whitespace characters that starts at `i`.
pub open spec fn word_end(s: Seq<char>, i: int) -> int
    decreases s.len() - i,
{
    if i < 0 || i >= s.len() || is_ws(s[i]) {
        i
    } else {
        word_end(s, i + 1)
    }
}

proof fn lemma_word_end(s: Seq<char>, i: int, j: int)
    requires
        0 <= i <= j <= s.len(),
        forall|k: int| i <= k < j ==> !is_ws(#[trigger] s[k]),
        j == s.len() || is_ws(s[j]),
    ensures
        word_end(s, i) == j,
    decreases j - i,
{
    if i < j {
        lemma_word_end(s, i + 1, j);
    }
}

pub proof fn lemma_word_end_bounds(s: Seq<char>, i: int)
    requires
        0 <= i <= s.len(),
    ensures
        i <= word_end(s, i) <= s.len(),
    decreases s.len() - i,
{
    if i < s.len() && !is_ws(s[i]) {
        lemma_word_end_bounds(s, i + 1);
    }
}

/// The whitespace-separated words of `s` from `i` on.
pub open spec fn words_from(s: Seq<char>, i: int) -> Seq<Seq<char>>
    decreases s.len() - i,
{
    if i < 0 || i >= s.len() {
        Seq::empty()
    } else if is_ws(s[i]) {
        words_from(s, i + 1)
    } else {
        let e = word_end(s, i + 1);
        proof {
            lemma_word_end_bounds(s, i + 1);
        }
        seq![s.subrange(i, e)] + words_from(s, e)
    }
}

/// Whitespace runs collapsed to single spaces, with no space at either end.
pub open spec fn compact(s: Seq<char>) -> Seq<char> {
    join(words_from(s, 0), " "@)
}

pub fn compact_whitespace(text: &str) -> (r: String)
    ensures
        r@ == compact(text@),
{
    let cs = chars_of(text);
    let n = cs.len();
    let mut words: Vec<String> = Vec::new();
    let mut i: usize = 0;
    while i < n
        invariant
            cs@ == text@,
            n == cs@.len(),
            i <= n,
            views(words@) + words_from(text@, i as int) == words_from(text@, 0),
        decreases n - i,
    {
        if is_whitespace(cs[i]) {
            i = i + 1;
        } else {
            let start = i;
            let mut j: usize = i + 1;
            while j < n && !is_whitespace(cs[j])
                invariant
                    cs@ == text@,
                    n == cs@.len(),
                    start < j <= n,
                    forall|k: int| start + 1 <= k < j ==> !is_ws(#[trigger] cs@[k]),
                decreases n - j,
            {
                j = j + 1;
            }
            proof {
                lemma_word_end(text@, start + 1, j as int);
            }
            let w = string_from(&cs, start, j);
            let ghost before = views(words@);
            words.push(w);
            assert(views(words@) =~= before.push(w@));
            assert(views(words@) + words_from(text@, j as int) =~= before + words_from(text@, start as int));
            i = j;
        }
    }
    assert(views(words@) =~= views(words@) + words_from(text@, n as int));
    join_strings(&words, " ")
}

/// At most 240 characters: a longer message keeps 239 and ends in `…`.
pub open spec fn truncated(s: Seq<char>) -> Seq<char> {
    if s.len() <= MAX_MESSAGE_LENGTH {
        s
    } else {
        s.take(MAX_MESSAGE_LENGTH - 1).push('\u{2026}')
    }
}

pub fn truncate_message(message: String) -> (r: String)
    ensures
        r@ == truncated(message@),
{
    let cs = chars_of(message.as_str());
    if cs.len() <= MAX_MESSAGE_LENGTH {
        return message;
    }
    let mut r = string_from(&cs, 0, MAX_MESSAGE_LENGTH - 1);
    push_char(&mut r, '\u{2026}');
    assert(cs@.subrange(0, MAX_MESSAGE_LENGTH - 1) =~= message@.take(MAX_MESSAGE_LENGTH - 1));
    r
}

/// A journal message as it may be kept: controls blanked, identities and
/// private labels redacted, absolute paths replaced, whitespace collapsed
/// and the length bounded.
pub open spec fn sanitized(message: Seq<char>) -> Seq<char> {
    truncated(compact(strip_paths(map_tokens(map_tokens(decontrol(message), 0, TokenRule::Identities), 0, TokenRule::Labels), 0)))
}

fn decontrol_text(message: &str) -> (r: String)
    ensures
        r@ == decontrol(message@),
{
    let cs = chars_of(message);
    let mut out = String::new();
    let mut i: usize = 0;
    while i < cs.len()
        invariant
            cs@ == message@,
            i <= cs@.len(),
            out@ == decontrol(message@.take(i as int)),
        decreases cs@.len() - i,
    {
        let c = cs[i];
        let is_ctrl = c <= '\u{1f}' || ('\u{7f}' <= c && c <= '\u{9f}');
        push_char(&mut out, if is_ctrl { ' ' } else { c });
        i = i + 1;
        assert(out@ =~= decontrol(message@.take(i as int)));
    }
    assert(message@.take(i as int) =~= message@);
    out
}

/// A kept journal message is never longer than the message limit, whatever
/// the journal held.
pub proof fn law_sanitized_messages_are_bounded(message: Seq<char>)
    ensures
        sanitized(message).len() <= MAX_MESSAGE_LENGTH,
{
}

/// Sanitize a journal message before it is kept.
pub fn sanitize_message(message: &str) -> (r: String)
    ensures
        r@ == sanitized(message@),
{
    let a = decontrol_text(message);
    let b = redact_tokens(a.as_str(), TokenRule::Identities);
    let c = redact_tokens(b.as_str(), TokenRule::Labels);
    let d = redact_absolute_paths(c.as_str());
    let e = compact_whitespace(d.as_str());
    truncate_message(e)
}

/// How a record's `PRIORITY` member looks.
#[derive(Debug, Clone, PartialEq, Eq)]
pub enum PriorityField {
    Missing,
    /// An unsigned integer.
    Number(u64),
    /// A string.
    Text(String),
    /// Present, but neither.
    Other,
}

/// The members of one journal record that the collector reads; each string
/// member is `Some` only when it is a JSON string.
#[derive(Debug, Clone, PartialEq, Eq)]
pub struct JournalRecord {
    pub user_unit: Option<String>,
    pub system_unit: Option<String>,
    pub priority: PriorityField,
    pub message: Option<String>,
}

/// The value of a run of ASCII digits.
pub open spec fn digits_value(d: Seq<char>) -> int
    decreases d.len(),
{
    if d.len() == 0 {
        0
    } else {
        digits_value(d.drop_last()) * 10 + (d.last() as int - '0' as int)
    }
}

/// The digits of a decimal: without one leading `+`.
pub open spec fn unsigned_digits(s: Seq<char>) -> Seq<char> {
    if s.len() > 0 && s[0] == '+' { s.drop_first() } else { s }
}

pub open spec fn all_digits(d: Seq<char>) -> bool {
    forall|i: int| 0 <= i < d.len() ==> is_ascii_digit(#[trigger] d[i])
}

/// `u8::from_str`: an optional `+`, at least one ASCII digit, at most 255.
pub open spec fn parse_u8_spec(s: Seq<char>) -> Option<u8> {
    let d = unsigned_digits(s);
    if d.len() > 0 && all_digits(d) && digits_value(d) <= 255 {
        Some(digits_value(d) as u8)
    } else {
        None
    }
}

proof fn lemma_digits_value_nonneg(d: Seq<char>)
    requires
        forall|i: int| 0 <= i < d.len() ==> is_ascii_digit(#[trigger] d[i]),
    ensures
        digits_value(d) >= 0,
    decreases d.len(),
{
    if d.len() > 0 {
        lemma_digits_value_nonneg(d.drop_last());
    }
}

proof fn lemma_digits_value_monotone(d: Seq<char>, k: int)
    requires
        0 <= k <= d.len(),
        forall|i: int| 0 <= i < d.len() ==> is_ascii_digit(#[trigger] d[i]),
    ensures
        digits_value(d.take(k)) <= digits_value(d),
    decreases d.len() - k,
{
    if k < d.len() {
        lemma_digits_value_monotone(d, k + 1);
        assert(d.take(k + 1).drop_last() =~= d.take(k));
        lemma_digits_value_nonneg(d.take(k));
    } else {
        assert(d.take(k) =~= d);
    }
}

/// Parse a decimal `u8` as `str::parse` does.
pub fn parse_u8(s: &str) -> (r: Option<u8>)
    ensures
        r == parse_u8_spec(s@),
{
    let cs = chars_of(s);
    let n = cs.len();
    let start: usize = if n > 0 && cs[0] == '+' { 1 } else { 0 };
    let ghost d = unsigned_digits(s@);
    assert(d =~= cs@.subrange(start as int, n as int));
    if start >= n {
        return None;
    }
    let mut value: u32 = 0;
    let mut i: usize = start;
    while i < n
        invariant
            cs@ == s@,
            n == cs@.len(),
            start <= i <= n,
            d == cs@.subrange(start as int, n as int),
            d == unsigned_digits(s@),
            forall|k: int| start <= k < i ==> is_ascii_digit(#[trigger] cs@[k]),
            value as int == digits_value(d.take(i - start)),
            value <= 255,
        decreases n - i,
    {
        let c = cs[i];
        assert(d[i - start] == c);
        if !('0' <= c && c <= '9') {
            assert(!is_ascii_digit(d[i - start]));
            assert(!all_digits(d));
            return None;
        }
        let digit = (c as u32) - ('0' as u32);
        assert(d.take(i - start + 1).drop_last() =~= d.take(i - start));
        assert(d.take(i - start + 1).last() == c);
        assert(digits_value(d.take(i - start + 1)) == digits_value(d.take(i - start)) * 10 + (c as int - '0' as int));
        let next = value * 10 + digit;
        i = i + 1;
        if next > 255 {
            proof {
                assert(digits_value(d.take(i - start)) == next as int);
                if all_digits(d) {
                    lemma_digits_value_monotone(d, i - start);
                }
            }
            return None;
        }
        value = next;
    }
    assert(d.take(i - start) =~= d);
    assert(all_digits(d));
    Some(value as u8)
}

/// A record's priority: an integer that fits a `u8`, or a string that
/// parses as one.
pub open spec fn priority_spec(p: PriorityField) -> Option<u8> {
    match p {
        PriorityField::Number(n) => if n <= 255 { Some(n as u8) } else { None },
        PriorityField::Text(t) => parse_u8_spec(t@),
        _ => None,
    }
}

pub fn parse_priority(p: &PriorityField) -> (r: Option<u8>)
    ensures
        r == priority_spec(*p),
{
    match p {
        PriorityField::Number(n) => if *n <= 255 { Some(*n as u8) } else { None },
        PriorityField::Text(t) => parse_u8(t.as_str()),
        _ => None,
    }
}

/// The record's unit: the user unit when it is a string, else the system
/// unit; an empty name counts as none.
pub open spec fn record_unit(r: JournalRecord) -> Option<Seq<char>> {
    let u = match r.user_unit {
        Some(u) => Some(u@),
        None => match r.system_unit {
            Some(u) => Some(u@),
            None => None,
        },
    };
    match u {
        Some(x) => if x.len() > 0 { Some(x) } else { None },
        None => None,
    }
}

/// How one record counts.
#[derive(Debug, Clone, PartialEq, Eq)]
pub enum ParsedEntry {
    Relevant(JournalEntry),
    /// Outside the allowlist, not severe, or not classifiable.
    Irrelevant,
    /// Missing the unit, priority or message, or empty once sanitized.
    Insufficient,
}

/// The class of a record: kept only from an allowed unit, at warning
/// severity or worse, with a classifiable error message that remains
/// non-empty once sanitized.
pub open spec fn entry_spec(r: JournalRecord, allowed: Seq<Seq<char>>) -> ParsedEntry {
    match record_unit(r) {
        None => ParsedEntry::Insufficient,
        Some(unit) => if !allowed.contains(unit) {
            ParsedEntry::Irrelevant
        } else {
            match priority_spec(r.priority) {
                None => ParsedEntry::Insufficient,
                Some(p) => if p > MAX_PRIORITY {
                    ParsedEntry::Irrelevant
                } else {
                    match r.message {
                        None => ParsedEntry::Insufficient,
                        Some(m) => match classify_spec(m@, unit) {
                            None => ParsedEntry::Irrelevant,
                            Some(c) => if sanitized(m@).len() == 0 {
                                ParsedEntry::Insufficient
                            } else {
                                ParsedEntry::Relevant(arbitrary())
                            },
                        },
                    }
                }
            }
        }
    }
}

/// The entry kept for a relevant record.
pub open spec fn relevant_entry_ok(e: JournalEntry, r: JournalRecord) -> bool {
    &&& record_unit(r) == Some(e.unit@)
    &&& priority_spec(r.priority) == Some(e.priority)
    &&& r.message matches Some(m) && classify_spec(m@, e.unit@) == Some(e.classification)
        && e.message@ == sanitized(m@)
}

pub fn parse_entry(record: &JournalRecord, allowed: &Vec<String>) -> (r: ParsedEntry)
    ensures
        (r is Relevant) == (entry_spec(*record, views(allowed@)) is Relevant),
        !(r is Relevant) ==> r == entry_spec(*record, views(allowed@)),
        r matches ParsedEntry::Relevant(e) ==> relevant_entry_ok(e, *record),
{
    let unit: &String = match &record.user_unit {
        Some(u) => u,
        None => match &record.system_unit {
            Some(u) => u,
            None => return ParsedEntry::Insufficient,
        },
    };
    if unit.as_str().unicode_len() == 0 {
        return ParsedEntry::Insufficient;
    }
    if !crate::text::contains_string(allowed, unit.as_str()) {
        return ParsedEntry::Irrelevant;
    }
    let priority = match parse_priority(&record.priority) {
        Some(p) => p,
        None => return ParsedEntry::Insufficient,
    };
    if priority > MAX_PRIORITY {
        return ParsedEntry::Irrelevant;
    }
    let message = match &record.message {
        Some(m) => m,
        None => return ParsedEntry::Insufficient,
    };
    let classification = match classify_message(message.as_str(), unit.as_str()) {
        Some(c) => c,
        None => return ParsedEntry::Irrelevant,
    };
    let clean = sanitize_message(message.as_str());
    if clean.as_str().unicode_len() == 0 {
        return ParsedEntry::Insufficient;
    }
    ParsedEntry::Relevant(JournalEntry { unit: unit.as_str().to_owned(), priority, classification, message: clean })
}

/// The match state of a parse: matched when an entry was kept, else
/// whether some record lacked the fields to decide.
pub open spec fn match_state_spec(entries: nat, insufficient: nat) -> JournalMatchState {
    if entries > 0 {
        JournalMatchState::Matched
    } else if insufficient == 0 {
        JournalMatchState::NoRelevantEvidence
    } else {
        JournalMatchState::InsufficientEvidence
    }
}

/// Summarize the classified records: the model's bounds, how many records
/// were scanned and ignored, the kept entries and the match state.
pub fn summarize(scanned: usize, ignored: usize, insufficient: usize, entries: Vec<JournalEntry>) -> (r: JournalInfo)
    ensures
        r.model_version == JOURNAL_MODEL_VERSION,
        r.window_minutes == JOURNAL_WINDOW_MINUTES,
        r.max_entries == JOURNAL_MAX_ENTRIES,
        r.scanned_entry_count == scanned,
        r.ignored_entry_count == ignored,
        r.entries == entries,
        r.match_state == match_state_spec(entries@.len(), insufficient as nat),
{
    let match_state = if entries.len() > 0 {
        JournalMatchState::Matched
    } else if insufficient == 0 {
        JournalMatchState::NoRelevantEvidence
    } else {
        JournalMatchState::InsufficientEvidence
    };
    JournalInfo {
        model_version: JOURNAL_MODEL_VERSION,
        window_minutes: JOURNAL_WINDOW_MINUTES,
        max_entries: JOURNAL_MAX_ENTRIES,
        scanned_entry_count: scanned,
        ignored_entry_count: ignored,
        match_state,
        entries,
    }
}

/// How a `PRIORITY` member is read.
pub open spec fn priority_read(p: PriorityField, m: Option<Json>) -> bool {
    match m {
        None => p == PriorityField::Missing,
        Some(v) => match u64_of(v) {
            Some(n) => p == PriorityField::Number(n),
            None => match text_of(v) {
                Some(t) => p matches PriorityField::Text(s) && s@ == t,
                None => p == PriorityField::Other,
            },
        },
    }
}

/// `r` holds what the record `j` says: its unit names, priority and
/// message, each string member only when it is a JSON string.
pub open spec fn record_read(r: JournalRecord, j: Json) -> bool {
    &&& opt_view(r.user_unit) == member_text(Some(j), "_SYSTEMD_USER_UNIT"@)
    &&& opt_view(r.system_unit) == member_text(Some(j), "_SYSTEMD_UNIT"@)
    &&& priority_read(r.priority, member(j, "PRIORITY"@))
    &&& opt_view(r.message) == member_text(Some(j), "MESSAGE"@)
}

/// Read the members a record is classified by.
pub fn read_record(value: &Json) -> (r: JournalRecord)
    ensures
        record_read(r, *value),
{
    let user_unit = match json_member(value, "_SYSTEMD_USER_UNIT") {
        Some(v) => json_as_str(v),
        None => None,
    };
    let system_unit = match json_member(value, "_SYSTEMD_UNIT") {
        Some(v) => json_as_str(v),
        None => None,
    };
    let priority = match json_member(value, "PRIORITY") {
        None => PriorityField::Missing,
        Some(v) => match json_as_u64(v) {
            Some(n) => PriorityField::Number(n),
            None => match json_as_str(v) {
                Some(t) => PriorityField::Text(t),
                None => PriorityField::Other,
            },
        },
    };
    let message = match json_member(value, "MESSAGE") {
        Some(v) => json_as_str(v),
        None => None,
    };
    JournalRecord { user_unit, system_unit, priority, message }
}

/// Two records read from the same JSON value are classified alike.
proof fn lemma_read_records_agree(r1: JournalRecord, r2: JournalRecord, j: Json, allowed: Seq<Seq<char>>)
    requires
        record_read(r1, j),
        record_read(r2, j),
    ensures
        entry_spec(r1, allowed) == entry_spec(r2, allowed),
        relevant_view(r1) == relevant_view(r2),
{
    assert(record_unit(r1) == record_unit(r2));
    assert(priority_spec(r1.priority) == priority_spec(r2.priority));
    assert(opt_view(r1.message) == opt_view(r2.message));
}

/// What a kept entry holds: unit, priority, classification and message.
pub open spec fn entry_view(e: JournalEntry) -> (Seq<char>, u8, JournalClassification, Seq<char>) {
    (e.unit@, e.priority, e.classification, e.message@)
}

/// The entry a relevant record is kept as.
pub open spec fn relevant_view(r: JournalRecord) -> (Seq<char>, u8, JournalClassification, Seq<char>) {
    let unit = record_unit(r)->Some_0;
    let m = opt_view(r.message)->Some_0;
    (unit, priority_spec(r.priority)->Some_0, classify_spec(m, unit)->Some_0, sanitized(m))
}

/// A record read from the JSON object `j`.
pub open spec fn record_of(j: Json) -> JournalRecord {
    choose|r: JournalRecord| record_read(r, j)
}

/// Where a parse stands after some lines: the records scanned and ignored
/// so far, the kept entries, and the error that stopped it, if any.
pub struct JournalScan {
    pub scanned: nat,
    pub ignored: nat,
    pub insufficient: nat,
    pub entries: Seq<(Seq<char>, u8, JournalClassification, Seq<char>)>,
    pub error: Option<Seq<char>>,
}

/// The parse of `lines`: blank lines are skipped; a non-blank line past the
/// first 80 is counted as ignored; any other must be a JSON object (else the
/// parse stops with an error naming the line), whose record is kept,
/// ignored, or ignored as insufficient.
pub open spec fn scan(lines: Seq<Seq<char>>, allowed: Seq<Seq<char>>) -> JournalScan
    decreases lines.len(),
{
    if lines.len() == 0 {
        JournalScan { scanned: 0, ignored: 0, insufficient: 0, entries: Seq::empty(), error: None }
    } else {
        let prev = scan(lines.drop_last(), allowed);
        let line = lines.last();
        if prev.error is Some || trim(line).len() == 0 {
            prev
        } else if prev.scanned + 1 > JOURNAL_MAX_ENTRIES {
            JournalScan { scanned: prev.scanned + 1, ignored: prev.ignored + 1, ..prev }
        } else {
            match parsed_text(line) {
                Err(e) => JournalScan { error: Some("line "@ + decimal(lines.len()) + ": "@ + e), ..prev },
                Ok(j) => if !(j is Object) {
                    JournalScan { error: Some("journal record is not an object"@), ..prev }
                } else {
                    match entry_spec(record_of(j), allowed) {
                        ParsedEntry::Relevant(_) => JournalScan {
                            scanned: prev.scanned + 1,
                            entries: prev.entries.push(relevant_view(record_of(j))),
                            ..prev
                        },
                        ParsedEntry::Irrelevant => JournalScan { scanned: prev.scanned + 1, ignored: prev.ignored + 1, ..prev },
                        ParsedEntry::Insufficient => JournalScan {
                            scanned: prev.scanned + 1,
                            ignored: prev.ignored + 1,
                            insufficient: prev.insufficient + 1,
                            ..prev
                        },
                    }
                },
            }
        }
    }
}

/// The number of lines that are not blank once trimmed.
pub open spec fn nonblank_count(ls: Seq<Seq<char>>) -> nat
    decreases ls.len(),
{
    if ls.len() == 0 {
        0
    } else {
        nonblank_count(ls.drop_last()) + if trim(ls.last()).len() == 0 { 0nat } else { 1nat }
    }
}

proof fn lemma_nonblank_count_bound(ls: Seq<Seq<char>>)
    ensures
        nonblank_count(ls) <= ls.len(),
    decreases ls.len(),
{
    if ls.len() > 0 {
        lemma_nonblank_count_bound(ls.drop_last());
    }
}

/// A kept entry: from an allowed unit, at warning severity or worse, with a
/// non-empty sanitized message.
pub open spec fn kept_entry_ok(e: JournalEntry, allowed: Seq<Seq<char>>) -> bool {
    &&& allowed.contains(e.unit@)
    &&& e.priority <= MAX_PRIORITY
    &&& e.message@.len() > 0
    &&& exists|m: Seq<char>| e.message@ == sanitized(m)
}

/// Once a parse has stopped on an error, later lines change nothing.
proof fn lemma_scan_stops(lines: Seq<Seq<char>>, allowed: Seq<Seq<char>>, k: int)
    requires
        0 <= k <= lines.len(),
        scan(lines.take(k), allowed).error is Some,
    ensures
        scan(lines, allowed) == scan(lines.take(k), allowed),
    decreases lines.len() - k,
{
    if k < lines.len() {
        assert(lines.take(k + 1).drop_last() =~= lines.take(k));
        lemma_scan_stops(lines, allowed, k + 1);
    } else {
        assert(lines.take(k) =~= lines);
    }
}

/// Parse `journalctl --output=json`: one JSON object per line. Blank lines
/// are skipped, records past the first 80 are counted as ignored, and a
/// line that is not JSON or not an object fails the parse.
pub fn parse_journal_output(text: &str, allowed: &Vec<String>) -> (r: Result<JournalInfo, String>)
    ensures
        ({
            let st = scan(lines_seq(text@), views(allowed@));
            match st.error {
                Some(e) => r matches Err(m) && m@ == e,
                None => r matches Ok(info) && {
                    &&& info.model_version == JOURNAL_MODEL_VERSION
                    &&& info.window_minutes == JOURNAL_WINDOW_MINUTES
                    &&& info.max_entries == JOURNAL_MAX_ENTRIES
                    &&& info.scanned_entry_count == st.scanned
                    &&& info.ignored_entry_count == st.ignored
                    &&& info.entries@.map_values(|e: JournalEntry| entry_view(e)) == st.entries
                    &&& info.match_state == match_state_spec(st.entries.len(), st.insufficient)
                },
            }
        }),
        r matches Ok(info) ==> {
            &&& info.scanned_entry_count == nonblank_count(lines_seq(text@))
            &&& info.entries@.len() + info.ignored_entry_count == info.scanned_entry_count
            &&& info.entries@.len() <= JOURNAL_MAX_ENTRIES
            &&& (info.match_state == JournalMatchState::Matched <==> info.entries@.len() > 0)
            &&& forall|k: int| 0 <= k < info.entries@.len() ==> kept_entry_ok(#[trigger] info.entries@[k], views(allowed@))
        },
{
    let ls = lines(text);
    let ghost lv = views(ls@);
    let ghost al = views(allowed@);
    let mut scanned: usize = 0;
    let mut ignored: usize = 0;
    let mut insufficient: usize = 0;
    let mut entries: Vec<JournalEntry> = Vec::new();
    let mut index: usize = 0;
    proof {
        lemma_nonblank_count_bound(lv);
        assert(lv.take(0) =~= Seq::<Seq<char>>::empty());
        assert(entries@.map_values(|e: JournalEntry| entry_view(e)) =~= Seq::empty());
    }
    while index < ls.len()
        invariant
            lv == views(ls@),
            lv == lines_seq(text@),
            al == views(allowed@),
            index <= ls@.len(),
            scanned == nonblank_count(lv.take(index as int)),
            entries@.len() + ignored == scanned,
            insufficient <= ignored,
            entries@.len() <= JOURNAL_MAX_ENTRIES,
            scanned <= index,
            forall|k: int| 0 <= k < entries@.len() ==> kept_entry_ok(#[trigger] entries@[k], al),
            scan(lv.take(index as int), al) == (JournalScan {
                scanned: scanned as nat,
                ignored: ignored as nat,
                insufficient: insufficient as nat,
                entries: entries@.map_values(|e: JournalEntry| entry_view(e)),
                error: None,
            }),
        decreases ls@.len() - index,
    {
        assert(lv.take(index + 1).drop_last() =~= lv.take(index as int));
        assert(lv.take(index + 1).last() == lv[index as int]);
        let line = ls[index].as_str();
        let trimmed = trim_str(line);
        if trimmed.as_str().unicode_len() == 0 {
            index = index + 1;
            continue;
        }
        scanned = scanned + 1;
        if scanned > JOURNAL_MAX_ENTRIES {
            ignored = ignored + 1;
            index = index + 1;
            continue;
        }
        let value = match parse_json(line) {
            Ok(v) => v,
            Err(e) => {
                let mut m = "line ".to_owned();
                push_decimal(&mut m, (index + 1) as u64);
                append(&mut m, ": ");
                append(&mut m, e.as_str());
                proof {
                    lemma_scan_stops(lv, al, index + 1);
                }
                return Err(m);
            },
        };
        if !matches!(value, Json::Object(_)) {
            proof {
                lemma_scan_stops(lv, al, index + 1);
            }
            return Err("journal record is not an object".to_owned());
        }
        let record = read_record(&value);
        proof {
            lemma_read_records_agree(record_of(value), record, value, al);
        }
        let ghost before = entries@;
        match parse_entry(&record, allowed) {
            ParsedEntry::Relevant(e) => {
                proof {
                    let m = record.message->Some_0@;
                    assert(e.message@ == sanitized(m));
                    assert(entry_view(e) == relevant_view(record));
                }
                entries.push(e);
                assert(entries@.map_values(|e: JournalEntry| entry_view(e)) =~= before.map_values(|e: JournalEntry| entry_view(e)).push(entry_view(e)));
            },
            ParsedEntry::Irrelevant => {
                ignored = ignored + 1;
            },
            ParsedEntry::Insufficient => {
                ignored = ignored + 1;
                insufficient = insufficient + 1;
            },
        }
        index = index + 1;
    }
    assert(lv.take(index as int) =~= lv);
    Ok(summarize(scanned, ignored, insufficient, entries))
}

/// The error markers are the fixed list error, failed, failure, unavailable,
/// unreachable, timed out, timeout, refused, cannot, could not, unable, not
/// found and no such, matched in the lower-cased message: a message without
/// any of them is never classified, and one with any of them that names
/// PipeWire (and neither ScreenCast nor WirePlumber) is a PipeWire error,
/// whatever the unit; one that names any component is classified, the
/// component named first in the order ScreenCast, WirePlumber, PipeWire,
/// portal; one that names none is classified by its unit.
pub proof fn law_error_markers_classify(message: Seq<char>, unit: Seq<char>)
    ensures
        ({
            let l = lower(message);
            let markers = seq![
                "error"@, "failed"@, "failure"@, "unavailable"@, "unreachable"@, "timed out"@, "timeout"@,
                "refused"@, "cannot"@, "could not"@, "unable"@, "not found"@, "no such"@,
            ];
            let marked = exists|i: int| 0 <= i < markers.len() && contains_seq(l, #[trigger] markers[i]);
            let names = contains_seq(l, "screencast"@) || contains_seq(l, "screen cast"@) || contains_seq(l, "wireplumber"@)
                || contains_seq(l, "pipewire"@) || contains_seq(l, "xdg-desktop-portal"@) || contains_seq(l, "portal"@);
            &&& !marked ==> classify_spec(message, unit) is None
            &&& marked && names ==> classify_spec(message, unit) is Some
            &&& marked && contains_seq(l, "pipewire"@) && !contains_seq(l, "screencast"@)
                && !contains_seq(l, "screen cast"@) && !contains_seq(l, "wireplumber"@)
                ==> classify_spec(message, unit) == Some(JournalClassification::PipeWire)
            &&& marked && (contains_seq(l, "screencast"@) || contains_seq(l, "screen cast"@))
                ==> classify_spec(message, unit) == Some(JournalClassification::ScreenCast)
            &&& marked && contains_seq(l, "wireplumber"@) && !contains_seq(l, "screencast"@)
                && !contains_seq(l, "screen cast"@)
                ==> classify_spec(message, unit) == Some(JournalClassification::WirePlumber)
            &&& marked && !names && unit == "wireplumber.service"@
                ==> classify_spec(message, unit) == Some(JournalClassification::WirePlumber)
            &&& marked && !names && (unit == "pipewire.service"@ || unit == "pipewire-pulse.service"@)
                ==> classify_spec(message, unit) == Some(JournalClassification::PipeWire)
        }),
{
    let markers = seq![
        "error"@, "failed"@, "failure"@, "unavailable"@, "unreachable"@, "timed out"@, "timeout"@,
        "refused"@, "cannot"@, "could not"@, "unable"@, "not found"@, "no such"@,
    ];
    reveal_strlit("wireplumber.service");
    reveal_strlit("pipewire.service");
    reveal_strlit("pipewire-pulse.service");
    assert("pipewire.service"@.len() != "wireplumber.service"@.len());
    assert("pipewire-pulse.service"@.len() != "wireplumber.service"@.len());
    assert(markers == error_markers());
}

} // verus!
