//! Shared, privacy-neutral pieces of the explicit portal request lifecycle:
//! request and session paths, handle tokens, error classification and the
//! terminality of responses.
use vstd::prelude::*;
use crate::model::probe::{
    lemma_resources_valid_for, CleanupResource, CleanupResult, CleanupStatus, ProbeKind, ProbeResult, ProbeStage,
    ProbeStatus,
};
use crate::text::{
    append, chars_of, concat2, contains_seq, contains_str, eq_str, find_at, first_at, is_ascii_alnum, join,
    join_strings, lines, lines_seq, lower, opt_view, push_char, starts_with, starts_with_str, string_from,
    to_ascii_lowercase, views,
};

verus! {

pub const PORTAL_DESTINATION: &'static str = "org.freedesktop.portal.Desktop";

pub const PORTAL_PATH: &'static str = "/org/freedesktop/portal/desktop";

pub const REQUEST_INTERFACE: &'static str = "org.freedesktop.portal.Request";

pub const INTROSPECTABLE_INTERFACE: &'static str = "org.freedesktop.DBus.Introspectable";

pub const RESPONSE_MEMBER: &'static str = "Response";

pub const REQUEST_PATH_PREFIX: &'static str = "/org/freedesktop/portal/desktop/request/";

pub const SESSION_PATH_PREFIX: &'static str = "/org/freedesktop/portal/desktop/session/";

pub const HANDLE_TOKEN_PREFIX: &'static str = "portaldoctor";

/// How waiting for a request's `Response` ended. The raw result map of an
/// outcome is kept by the caller only until the operation-specific decoder
/// has checked it; it is never rendered.
#[derive(Debug, Clone, Copy, PartialEq, Eq, Structural)]
pub enum ResponseKind {
    Outcome { code: u32 },
    UserCancelled,
    TimedOut,
    InfrastructureFailure,
    MalformedResponse,
}

impl ResponseKind {
    pub open spec fn ends_request_spec(self) -> bool {
        self is Outcome || self is MalformedResponse
    }

    /// The `Response` signal is terminal for the request object, also when
    /// its body is malformed: a later `Request.Close` would be a protocol
    /// violation rather than cleanup.
    pub fn ends_request(&self) -> (r: bool)
        ensures
            r == self.ends_request_spec(),
    {
        matches!(self, ResponseKind::Outcome { .. } | ResponseKind::MalformedResponse)
    }
}

#[derive(Debug, Clone, Copy, PartialEq, Eq, Structural)]
pub enum HandleTokenError {
    EntropyUnavailable,
    UniqueNameUnavailable,
}

/// The D-Bus object path grammar: `/`, or `/`-separated non-empty names of
/// ASCII letters, digits and `_`.
pub open spec fn object_path_ok(s: Seq<char>) -> bool {
    &&& s.len() >= 1
    &&& s[0] == '/'
    &&& (s.len() == 1 || s.last() != '/')
    &&& forall|i: int| 0 <= i < s.len() ==> is_ascii_alnum(#[trigger] s[i]) || s[i] == '_' || s[i] == '/'
    &&& forall|i: int| 0 <= i < s.len() - 1 ==> !(#[trigger] s[i] == '/' && s[i + 1] == '/')
}

/// `zvariant::OwnedObjectPath::try_from`: whether `s` is accepted as an
/// object path. The contract states the grammar that zvariant's validator
/// checks.
#[verifier::external_body]
pub(crate) fn object_path_valid(s: &str) -> (r: bool)
    ensures
        r == object_path_ok(s@),
{
    zbus::zvariant::OwnedObjectPath::try_from(s.to_owned()).is_ok()
}

pub open spec fn prefixed_path_ok(path: Seq<char>, prefix: Seq<char>) -> bool {
    starts_with(path, prefix) && path.len() > prefix.len()
}

pub fn valid_request_path(path: &str) -> (r: bool)
    ensures
        r == prefixed_path_ok(path@, REQUEST_PATH_PREFIX@),
{
    starts_with_str(path, REQUEST_PATH_PREFIX) && path.unicode_len() > REQUEST_PATH_PREFIX.unicode_len()
}

pub fn valid_session_path(path: &str) -> (r: bool)
    ensures
        r == prefixed_path_ok(path@, SESSION_PATH_PREFIX@),
{
    starts_with_str(path, SESSION_PATH_PREFIX) && path.unicode_len() > SESSION_PATH_PREFIX.unicode_len()
}

/// Index of the last `/` in `s`, or -1.
pub open spec fn last_slash(s: Seq<char>) -> int
    decreases s.len(),
{
    if s.len() == 0 {
        -1
    } else if s.last() == '/' {
        s.len() - 1
    } else {
        last_slash(s.drop_last())
    }
}

proof fn lemma_last_slash_range(s: Seq<char>)
    ensures
        -1 <= last_slash(s) < s.len(),
        last_slash(s) >= 0 ==> s[last_slash(s)] == '/',
    decreases s.len(),
{
    if s.len() > 0 && s.last() != '/' {
        lemma_last_slash_range(s.drop_last());
    }
}

/// The directory of the expected path (everything before its last `/`,
/// with that `/`).
pub open spec fn sender_prefix(expected: Seq<char>) -> Option<Seq<char>> {
    let k = last_slash(expected);
    if k < 0 { None } else { Some(expected.subrange(0, k + 1)) }
}

fn sender_prefix_of(expected: &str) -> (r: Option<String>)
    ensures
        opt_view(r) == sender_prefix(expected@),
{
    let cs = chars_of(expected);
    let mut k: usize = cs.len();
    assert(expected@.subrange(0, expected@.len() as int) =~= expected@);
    while k > 0 && cs[k - 1] != '/'
        invariant
            cs@ == expected@,
            k <= cs@.len(),
            last_slash(expected@) == last_slash(expected@.subrange(0, k as int)),
        decreases k,
    {
        assert(expected@.subrange(0, k as int).drop_last() =~= expected@.subrange(0, k - 1));
        k = k - 1;
    }
    proof {
        assert(expected@.subrange(0, expected@.len() as int) =~= expected@);
    }
    if k == 0 {
        None
    } else {
        assert(expected@.subrange(0, k as int).last() == '/');
        Some(string_from(&cs, 0, k))
    }
}

/// A path is one of ours when it is well placed and sits in the directory
/// of the path our sender and token determine.
pub open spec fn path_for_sender_ok(path: Seq<char>, expected: Seq<char>, prefix: Seq<char>) -> bool {
    &&& prefixed_path_ok(path, prefix)
    &&& sender_prefix(expected) matches Some(dir) && starts_with(path, dir)
}

pub fn valid_request_path_for_sender(path: &str, expected_path: &str) -> (r: bool)
    ensures
        r == path_for_sender_ok(path@, expected_path@, REQUEST_PATH_PREFIX@),
{
    if !valid_request_path(path) {
        return false;
    }
    match sender_prefix_of(expected_path) {
        Some(dir) => starts_with_str(path, dir.as_str()),
        None => false,
    }
}

pub fn valid_session_path_for_sender(path: &str, expected_path: &str) -> (r: bool)
    ensures
        r == path_for_sender_ok(path@, expected_path@, SESSION_PATH_PREFIX@),
{
    if !valid_session_path(path) {
        return false;
    }
    match sender_prefix_of(expected_path) {
        Some(dir) => starts_with_str(path, dir.as_str()),
        None => false,
    }
}

/// A unique bus name as it appears in portal object paths: the leading `:`
/// dropped, `.` turned into `_`.
pub open spec fn sender_segment(unique_name: Seq<char>) -> Option<Seq<char>> {
    if unique_name.len() > 0 && unique_name[0] == ':' {
        Some(unique_name.drop_first().map_values(|c: char| if c == '.' { '_' } else { c }))
    } else {
        None
    }
}

/// The object path the portal will give a request or session created by
/// `unique_name` with `token`, when that is a valid object path.
pub open spec fn path_for_sender_spec(prefix: Seq<char>, unique_name: Seq<char>, token: Seq<char>) -> Option<Seq<char>> {
    match sender_segment(unique_name) {
        Some(sender) => {
            let path = prefix + sender + "/"@ + token;
            if object_path_ok(path) { Some(path) } else { None }
        },
        None => None,
    }
}

fn path_for_sender(prefix: &str, unique_name: &str, token: &str) -> (r: Option<String>)
    ensures
        opt_view(r) == path_for_sender_spec(prefix@, unique_name@, token@),
{
    let cs = chars_of(unique_name);
    if cs.len() == 0 || cs[0] != ':' {
        return None;
    }
    let mut path = prefix.to_owned();
    let ghost start = path@;
    let mut i: usize = 1;
    while i < cs.len()
        invariant
            cs@ == unique_name@,
            1 <= i <= cs@.len(),
            path@ == start + unique_name@.subrange(1, i as int).map_values(|c: char| if c == '.' { '_' } else { c }),
        decreases cs@.len() - i,
    {
        let c = cs[i];
        push_char(&mut path, if c == '.' { '_' } else { c });
        i = i + 1;
        assert(path@ =~= start + unique_name@.subrange(1, i as int).map_values(|c: char| if c == '.' { '_' } else { c }));
    }
    assert(unique_name@.subrange(1, i as int) =~= unique_name@.drop_first());
    append(&mut path, "/");
    append(&mut path, token);
    if object_path_valid(path.as_str()) {
        Some(path)
    } else {
        None
    }
}

/// The request object path for `unique_name` and `handle_token`.
pub fn request_path_for_sender(unique_name: &str, handle_token: &str) -> (r: Option<String>)
    ensures
        opt_view(r) == path_for_sender_spec(REQUEST_PATH_PREFIX@, unique_name@, handle_token@),
{
    path_for_sender(REQUEST_PATH_PREFIX, unique_name, handle_token)
}

/// The session object path for `unique_name` and `session_handle_token`.
pub fn session_path_for_sender(unique_name: &str, session_handle_token: &str) -> (r: Option<String>)
    ensures
        opt_view(r) == path_for_sender_spec(SESSION_PATH_PREFIX@, unique_name@, session_handle_token@),
{
    path_for_sender(SESSION_PATH_PREFIX, unique_name, session_handle_token)
}

/// One lowercase hexadecimal digit.
pub open spec fn hex_digit(d: nat) -> char {
    if d < 10 { ((48 + d) as u8) as char } else { ((97 + (d - 10)) as u8) as char }
}

/// `{:x}` of a number: lowercase hexadecimal without leading zeros.
pub open spec fn hex(n: nat) -> Seq<char>
    decreases n,
{
    if n < 16 { seq![hex_digit(n)] } else { hex(n / 16).push(hex_digit(n % 16)) }
}

/// `{:02x}` of a byte.
pub open spec fn hex_byte(b: u8) -> Seq<char> {
    seq![hex_digit((b / 16) as nat), hex_digit((b % 16) as nat)]
}

pub open spec fn hex_bytes(bs: Seq<u8>) -> Seq<char>
    decreases bs.len(),
{
    if bs.len() == 0 { Seq::empty() } else { hex_bytes(bs.drop_last()) + hex_byte(bs.last()) }
}

/// `portaldoctor_<random hex>_<sequence hex>`.
pub open spec fn token_text(random: Seq<u8>, sequence: u64) -> Seq<char> {
    HANDLE_TOKEN_PREFIX@ + "_"@ + hex_bytes(random) + "_"@ + hex(sequence as nat)
}

fn hex_digit_char(d: u8) -> (c: char)
    requires
        d < 16,
    ensures
        c == hex_digit(d as nat),
{
    if d < 10 { (48u8 + d) as char } else { (97u8 + (d - 10)) as char }
}

fn push_hex(out: &mut String, n: u64)
    ensures
        final(out)@ == old(out)@ + hex(n as nat),
    decreases n,
{
    if n >= 16 {
        push_hex(out, n / 16);
    }
    push_char(out, hex_digit_char((n % 16) as u8));
}

/// Build a handle token from 16 random bytes and a process-wide sequence
/// number; `fill` is the outcome of asking for the random bytes.
pub fn handle_token_with_entropy(fill: Result<[u8; 16], HandleTokenError>, sequence: u64) -> (r: Result<String, HandleTokenError>)
    ensures
        match (fill, r) {
            (Ok(random), Ok(t)) => t@ == token_text(random@, sequence),
            (Err(e), Err(e2)) => e == e2,
            _ => false,
        },
{
    let random = match fill {
        Ok(b) => b,
        Err(e) => return Err(e),
    };
    let mut token = HANDLE_TOKEN_PREFIX.to_owned();
    append(&mut token, "_");
    let ghost start = token@;
    let mut i: usize = 0;
    while i < 16
        invariant
            i <= 16,
            random@.len() == 16,
            token@ == start + hex_bytes(random@.take(i as int)),
        decreases 16 - i,
    {
        assert(random@.take(i + 1).drop_last() =~= random@.take(i as int));
        let b = random[i];
        push_char(&mut token, hex_digit_char(b / 16));
        push_char(&mut token, hex_digit_char(b % 16));
        i = i + 1;
        assert(token@ =~= start + hex_bytes(random@.take(i as int)));
    }
    assert(random@.take(16) =~= random@);
    append(&mut token, "_");
    push_hex(&mut token, sequence);
    Ok(token)
}

/// `getrandom::fill` on a 16-byte buffer: the bytes it produced, or
/// `EntropyUnavailable` when the operating system gave none. The contract
/// says only that a failure is reported as `EntropyUnavailable`; nothing is
/// stated of the bytes, which come from the operating system's randomness.
#[verifier::external_body]
fn random_bytes() -> (r: Result<[u8; 16], HandleTokenError>)
    ensures
        match r {
            Ok(_) => true,
            Err(e) => e == HandleTokenError::EntropyUnavailable,
        },
{
    let mut random = [0u8; 16];
    match getrandom::fill(&mut random) {
        Ok(()) => Ok(random),
        Err(_) => Err(HandleTokenError::EntropyUnavailable),
    }
}

/// A fresh handle token from operating-system randomness and the caller's
/// sequence number.
pub fn handle_token(sequence: u64) -> (r: Result<String, HandleTokenError>)
    ensures
        match r {
            Ok(t) => exists|random: Seq<u8>| random.len() == 16 && t@ == token_text(random, sequence),
            Err(e) => e == HandleTokenError::EntropyUnavailable,
        },
{
    let fill = random_bytes();
    let ghost f = fill;
    let r = handle_token_with_entropy(fill, sequence);
    match r {
        Ok(t) => {
            proof {
                let random = f->Ok_0@;
                assert(random.len() == 16 && t@ == token_text(random, sequence));
            }
            Ok(t)
        },
        Err(e) => Err(e),
    }
}

/// Whether any of `patterns` occurs in `s`.
pub open spec fn contains_any(s: Seq<char>, patterns: Seq<Seq<char>>) -> bool {
    exists|i: int| 0 <= i < patterns.len() && contains_seq(s, #[trigger] patterns[i])
}

pub(crate) fn contains_any_of(s: &str, patterns: &Vec<&str>) -> (r: bool)
    ensures
        r == contains_any(s@, patterns@.map_values(|p: &str| p@)),
{
    let ghost ps = patterns@.map_values(|p: &str| p@);
    let mut i: usize = 0;
    while i < patterns.len()
        invariant
            i <= patterns@.len(),
            ps == patterns@.map_values(|p: &str| p@),
            forall|k: int| 0 <= k < i ==> !contains_seq(s@, #[trigger] ps[k]),
        decreases patterns@.len() - i,
    {
        assert(ps[i as int] == patterns@[i as int]@);
        if contains_str(s, patterns[i]) {
            return true;
        }
        i = i + 1;
    }
    false
}

pub open spec fn timeout_markers() -> Seq<Seq<char>> {
    seq!["timedout"@, "timed out"@, "noreply"@, "no reply"@]
}

pub open spec fn unavailable_markers() -> Seq<Seq<char>> {
    seq![
        "serviceunknown"@, "namehasnoowner"@, "no such service"@, "no session bus"@, "dbus_session_bus_address"@,
        "connection refused"@, "failed to connect"@, "could not connect"@, "no server"@,
    ]
}

pub open spec fn unsupported_markers() -> Seq<Seq<char>> {
    seq![
        "unknownmethod"@, "unknown method"@, "unknowninterface"@, "unknown interface"@, "unknownproperty"@,
        "unknown property"@, "not supported"@, "notsupported"@, "notimplemented"@,
    ]
}

/// The probe status a D-Bus error message stands for, matched ASCII
/// case-insensitively: time-outs, then unreachable services, then missing
/// methods or interfaces; anything else is an infrastructure failure.
pub open spec fn classify_spec(message: Seq<char>, unsupported: Seq<Seq<char>>) -> ProbeStatus {
    let l = lower(message);
    if contains_any(l, timeout_markers()) {
        ProbeStatus::TimedOut
    } else if contains_any(l, unavailable_markers()) {
        ProbeStatus::Unavailable
    } else if contains_any(l, unsupported) {
        ProbeStatus::Unsupported
    } else {
        ProbeStatus::InfrastructureFailure
    }
}

pub fn classify_error_message(message: &str) -> (r: ProbeStatus)
    ensures
        r == classify_spec(message@, unsupported_markers()),
{
    let unsupported: Vec<&str> = vec![
        "unknownmethod", "unknown method", "unknowninterface", "unknown interface", "unknownproperty",
        "unknown property", "not supported", "notsupported", "notimplemented",
    ];
    assert(unsupported@.map_values(|p: &str| p@) =~= unsupported_markers());
    classify_message_with(message, &unsupported)
}

/// `classify_spec` with the given markers for a missing method or interface.
pub(crate) fn classify_message_with(message: &str, unsupported: &Vec<&str>) -> (r: ProbeStatus)
    ensures
        r == classify_spec(message@, unsupported@.map_values(|p: &str| p@)),
{
    let l = to_ascii_lowercase(message);
    let timeouts: Vec<&str> = vec!["timedout", "timed out", "noreply", "no reply"];
    assert(timeouts@.map_values(|p: &str| p@) =~= timeout_markers());
    if contains_any_of(l.as_str(), &timeouts) {
        return ProbeStatus::TimedOut;
    }
    let unavailable: Vec<&str> = vec![
        "serviceunknown", "namehasnoowner", "no such service", "no session bus", "dbus_session_bus_address",
        "connection refused", "failed to connect", "could not connect", "no server",
    ];
    assert(unavailable@.map_values(|p: &str| p@) =~= unavailable_markers());
    if contains_any_of(l.as_str(), &unavailable) {
        return ProbeStatus::Unavailable;
    }
    if contains_any_of(l.as_str(), unsupported) {
        return ProbeStatus::Unsupported;
    }
    ProbeStatus::InfrastructureFailure
}

pub open spec fn gone_markers() -> Seq<Seq<char>> {
    seq!["unknownobject"@, "unknown object"@, "no such object"@, "does not exist"@]
}

/// Whether a D-Bus error message says the object no longer exists.
pub fn object_gone_message(message: &str) -> (r: bool)
    ensures
        r == contains_any(lower(message@), gone_markers()),
{
    let l = to_ascii_lowercase(message);
    let markers: Vec<&str> = vec!["unknownobject", "unknown object", "no such object", "does not exist"];
    assert(markers@.map_values(|p: &str| p@) =~= gone_markers());
    contains_any_of(l.as_str(), &markers)
}

#[verifier::external_type_specification]
#[verifier::external_body]
pub struct ExZbusError(zbus::Error);

/// `zbus::Error`'s `Display` text. Nothing is stated of it: it is the
/// library's rendering of an error that came from the bus.
#[verifier::external_body]
pub(crate) fn error_message(error: &zbus::Error) -> (r: String)
{
    error.to_string()
}

/// The probe status of a D-Bus error, by its message.
pub fn classify_error(error: &zbus::Error) -> (r: ProbeStatus)
    ensures
        exists|message: Seq<char>| r == classify_spec(message, unsupported_markers()),
{
    let message = error_message(error);
    let r = classify_error_message(message.as_str());
    assert(r == classify_spec(message@, unsupported_markers()));
    r
}

/// Whether a D-Bus error says the object is already gone.
pub fn object_already_gone(error: &zbus::Error) -> (r: bool)
    ensures
        exists|message: Seq<char>| r == contains_any(lower(message), gone_markers()),
{
    let message = error_message(error);
    let r = object_gone_message(message.as_str());
    assert(r == contains_any(lower(message@), gone_markers()));
    r
}

/// The part of an introspection document between the opening tag `open`
/// and the next `</interface>`.
pub open spec fn interface_body(xml: Seq<char>, open: Seq<char>) -> Option<Seq<char>> {
    let start = first_at(xml, open, 0);
    if start < 0 {
        None
    } else {
        let rest = xml.subrange(start, xml.len() as int);
        let end = first_at(rest, "</interface>"@, 0);
        if end < 0 { None } else { Some(rest.subrange(0, end)) }
    }
}

pub(crate) fn interface_section(xml: &str, open: &str) -> (r: Option<String>)
    ensures
        opt_view(r) == interface_body(xml@, open@),
{
    let cs = chars_of(xml);
    let open_cs = chars_of(open);
    let start = match find_at(&cs, &open_cs, 0) {
        Some(s) => s,
        None => return None,
    };
    let rest = string_from(&cs, start, cs.len());
    let rest_cs = chars_of(rest.as_str());
    let close = chars_of("</interface>");
    match find_at(&rest_cs, &close, 0) {
        Some(end) => Some(string_from(&rest_cs, 0, end)),
        None => None,
    }
}

/// Some line of `body` contains both `a` and `b`.
pub open spec fn line_with_both(body: Seq<char>, a: Seq<char>, b: Seq<char>) -> bool {
    exists|i: int| 0 <= i < lines_seq(body).len() && contains_seq(#[trigger] lines_seq(body)[i], a) && contains_seq(lines_seq(body)[i], b)
}

pub(crate) fn any_line_with(body: &str, a: &str, b: &str) -> (r: bool)
    ensures
        r == line_with_both(body@, a@, b@),
{
    let ls = lines(body);
    let mut i: usize = 0;
    while i < ls.len()
        invariant
            i <= ls@.len(),
            views(ls@) == lines_seq(body@),
            forall|k: int| 0 <= k < i ==> !(contains_seq(#[trigger] lines_seq(body@)[k], a@) && contains_seq(lines_seq(body@)[k], b@)),
        decreases ls@.len() - i,
    {
        assert(lines_seq(body@)[i as int] == ls@[i as int]@);
        if contains_str(ls[i].as_str(), a) && contains_str(ls[i].as_str(), b) {
            return true;
        }
        i = i + 1;
    }
    false
}

/// A request that produced no matching `Response` still needs
/// `Request.Close` after these outcomes.
pub open spec fn needs_request_close(status: ProbeStatus) -> bool {
    status == ProbeStatus::TimedOut || status == ProbeStatus::InfrastructureFailure
        || status == ProbeStatus::MalformedResponse || status == ProbeStatus::UserCancelled
}

pub fn request_close_needed(status: ProbeStatus) -> (r: bool)
    ensures
        r == needs_request_close(status),
{
    matches!(status, ProbeStatus::TimedOut | ProbeStatus::InfrastructureFailure | ProbeStatus::MalformedResponse | ProbeStatus::UserCancelled)
}

/// Cleanup after `Request.Close` failed for the request.
pub fn failed_request_cleanup() -> (r: CleanupResult)
    ensures
        r.status_spec() == crate::model::probe::CleanupStatus::Failed,
        r.resources_spec() == seq![CleanupResource::Request],
        r.valid(),
{
    let mut v: Vec<CleanupResource> = Vec::new();
    v.push(CleanupResource::Request);
    assert(v@ =~= seq![CleanupResource::Request]);
    proof {
        crate::model::probe::lemma_single_no_duplicate(CleanupResource::Request);
    }
    match CleanupResult::failed(v) {
        Ok(c) => c,
        Err(_) => CleanupResult::unverified(),
    }
}

/// The cleanup a probe of `kind` may report: consistent, and owning only
/// resources that such a probe can create.
pub open spec fn cleanup_fits(kind: ProbeKind, cleanup: CleanupResult) -> bool {
    &&& cleanup.valid()
    &&& forall|k: int| 0 <= k < cleanup.resources_spec().len() ==> (#[trigger] cleanup.resources_spec()[k]).valid_for(kind)
}

/// The stage a result reports: a failed or unverified cleanup moves it to
/// `Cleanup`, whatever stage the operation reached.
pub open spec fn reported_stage(stage: ProbeStage, cleanup: CleanupStatus) -> ProbeStage {
    if cleanup == CleanupStatus::Failed || cleanup == CleanupStatus::Unverified {
        ProbeStage::Cleanup
    } else {
        stage
    }
}

/// The terminal result of a probe of `kind`; the operation status is kept
/// as it is, and a cleanup that failed or was not verified moves the stage
/// to `Cleanup`.
pub fn probe_result(kind: ProbeKind, stage: ProbeStage, status: ProbeStatus, cleanup: CleanupResult) -> (r: ProbeResult)
    requires
        stage.valid_for(kind),
        cleanup_fits(kind, cleanup),
    ensures
        r.probe_spec() == kind,
        r.stage_spec() == reported_stage(stage, cleanup.status_spec()),
        r.status_spec() == status,
        r.cleanup_spec() == cleanup,
        r.valid(),
{
    let stage = if matches!(cleanup.status(), CleanupStatus::Failed | CleanupStatus::Unverified) {
        ProbeStage::Cleanup
    } else {
        stage
    };
    proof {
        lemma_resources_valid_for(cleanup.resources_spec(), kind);
    }
    ProbeResult::from_valid_parts(kind, stage, status, cleanup)
}

/// How a D-Bus `Close` call on a request or session object ended.
#[derive(Debug, Clone, Copy, PartialEq, Eq, Structural)]
pub enum CloseCall {
    /// No proxy for the object could be created in time.
    ProxyFailed,
    Closed,
    /// The call failed because the object no longer exists.
    ObjectGone,
    /// The call failed for another reason.
    Failed,
    TimedOut,
}

/// Cleanup status after `Request.Close`. An object that is already gone is
/// a completed cleanup only for a request path the portal itself returned.
pub open spec fn request_close_status(call: CloseCall, unknown_is_completed: bool) -> CleanupStatus {
    match call {
        CloseCall::Closed => CleanupStatus::Completed,
        CloseCall::ObjectGone => if unknown_is_completed {
            CleanupStatus::Completed
        } else {
            CleanupStatus::Unverified
        },
        _ => CleanupStatus::Failed,
    }
}

/// The cleanup that `Request.Close` achieved.
pub fn request_close_cleanup(call: CloseCall, unknown_is_completed: bool) -> (r: CleanupResult)
    ensures
        r.valid(),
        r.status_spec() == request_close_status(call, unknown_is_completed),
        r.resources_spec() == (if r.status_spec() == CleanupStatus::Failed {
            seq![CleanupResource::Request]
        } else {
            Seq::<CleanupResource>::empty()
        }),
{
    match call {
        CloseCall::Closed => CleanupResult::completed(),
        CloseCall::ObjectGone => if unknown_is_completed {
            CleanupResult::completed()
        } else {
            CleanupResult::unverified()
        },
        _ => failed_request_cleanup(),
    }
}

/// How a portal method that creates a request object answered.
#[derive(Debug, Clone, Copy, PartialEq, Eq, Structural)]
pub enum RequestCall {
    /// A request path came back; `valid_path` tells whether it is a request
    /// path of this connection.
    Reply { valid_path: bool },
    /// The method failed; `status` classifies the error.
    Failed { status: ProbeStatus },
    /// The caller stopped waiting (`UserCancelled` or `TimedOut`).
    Interrupted { status: ProbeStatus },
}

/// How the bounded wait for a late reply, after an interruption, ended.
#[derive(Debug, Clone, Copy, PartialEq, Eq, Structural)]
pub enum LateReply {
    Reply { valid_path: bool },
    /// The method failed or the recovery budget ran out.
    Failed,
}

/// What comes after a request method answered.
#[derive(Debug, Clone, Copy, PartialEq, Eq, Structural)]
pub enum RequestStep {
    /// The request exists: wait for its `Response`.
    Wait,
    /// Give the interrupted method its recovery budget.
    Recover { status: ProbeStatus },
    /// Close a request that may exist, then report `status`: at the path the
    /// portal returned, or else at the path expected from our token.
    Close { returned_path: bool, unknown_is_completed: bool, status: ProbeStatus },
    /// No request can exist: report `status` with nothing to clean up.
    Done { status: ProbeStatus },
}

pub open spec fn after_request_call_spec(call: RequestCall) -> RequestStep {
    match call {
        RequestCall::Reply { valid_path } => if valid_path {
            RequestStep::Wait
        } else {
            RequestStep::Close { returned_path: false, unknown_is_completed: false, status: ProbeStatus::MalformedResponse }
        },
        RequestCall::Failed { status } => if needs_request_close(status) {
            RequestStep::Close { returned_path: false, unknown_is_completed: false, status }
        } else {
            RequestStep::Done { status }
        },
        RequestCall::Interrupted { status } => RequestStep::Recover { status },
    }
}

/// The next step after a request method answered: a foreign path is a
/// malformed reply whose possible request is closed at the expected path;
/// an error that may hide a created request closes it the same way.
pub fn after_request_call(call: RequestCall) -> (r: RequestStep)
    ensures
        r == after_request_call_spec(call),
{
    match call {
        RequestCall::Reply { valid_path } => if valid_path {
            RequestStep::Wait
        } else {
            RequestStep::Close { returned_path: false, unknown_is_completed: false, status: ProbeStatus::MalformedResponse }
        },
        RequestCall::Failed { status } => if request_close_needed(status) {
            RequestStep::Close { returned_path: false, unknown_is_completed: false, status }
        } else {
            RequestStep::Done { status }
        },
        RequestCall::Interrupted { status } => RequestStep::Recover { status },
    }
}

pub open spec fn after_late_reply_spec(late: LateReply, status: ProbeStatus) -> RequestStep {
    match late {
        LateReply::Reply { valid_path } => if valid_path {
            RequestStep::Close { returned_path: true, unknown_is_completed: true, status }
        } else {
            RequestStep::Close { returned_path: false, unknown_is_completed: false, status: ProbeStatus::MalformedResponse }
        },
        LateReply::Failed => RequestStep::Close { returned_path: false, unknown_is_completed: false, status },
    }
}

/// The next step after recovering an interrupted request method: the
/// request is always closed, at the returned path when it is ours.
pub fn after_late_reply(late: LateReply, status: ProbeStatus) -> (r: RequestStep)
    ensures
        r == after_late_reply_spec(late, status),
{
    match late {
        LateReply::Reply { valid_path } => if valid_path {
            RequestStep::Close { returned_path: true, unknown_is_completed: true, status }
        } else {
            RequestStep::Close { returned_path: false, unknown_is_completed: false, status: ProbeStatus::MalformedResponse }
        },
        LateReply::Failed => RequestStep::Close { returned_path: false, unknown_is_completed: false, status },
    }
}

/// The status a `Response` stands for when its results need no decoding:
/// `0` success, `1` cancelled by the user, `2` other failure, anything else
/// malformed.
pub open spec fn response_status(response: ResponseKind) -> ProbeStatus {
    match response {
        ResponseKind::Outcome { code } => if code == 0 {
            ProbeStatus::Success
        } else if code == 1 {
            ProbeStatus::UserCancelled
        } else if code == 2 {
            ProbeStatus::InfrastructureFailure
        } else {
            ProbeStatus::MalformedResponse
        },
        ResponseKind::UserCancelled => ProbeStatus::UserCancelled,
        ResponseKind::TimedOut => ProbeStatus::TimedOut,
        ResponseKind::InfrastructureFailure => ProbeStatus::InfrastructureFailure,
        ResponseKind::MalformedResponse => ProbeStatus::MalformedResponse,
    }
}

pub fn response_outcome_status(response: ResponseKind) -> (r: ProbeStatus)
    ensures
        r == response_status(response),
{
    match response {
        ResponseKind::Outcome { code } => if code == 0 {
            ProbeStatus::Success
        } else if code == 1 {
            ProbeStatus::UserCancelled
        } else if code == 2 {
            ProbeStatus::InfrastructureFailure
        } else {
            ProbeStatus::MalformedResponse
        },
        ResponseKind::UserCancelled => ProbeStatus::UserCancelled,
        ResponseKind::TimedOut => ProbeStatus::TimedOut,
        ResponseKind::InfrastructureFailure => ProbeStatus::InfrastructureFailure,
        ResponseKind::MalformedResponse => ProbeStatus::MalformedResponse,
    }
}

pub open spec fn status_name(s: ProbeStatus) -> Seq<char> {
    match s {
        ProbeStatus::Success => "success"@,
        ProbeStatus::UserCancelled => "user_cancelled"@,
        ProbeStatus::TimedOut => "timed_out"@,
        ProbeStatus::Unavailable => "unavailable"@,
        ProbeStatus::Unsupported => "unsupported"@,
        ProbeStatus::MalformedResponse => "malformed_response"@,
        ProbeStatus::InfrastructureFailure => "infrastructure_failure"@,
    }
}

/// The machine name of an operation status.
pub fn probe_status_name(s: ProbeStatus) -> (r: &'static str)
    ensures
        r@ == status_name(s),
{
    match s {
        ProbeStatus::Success => "success",
        ProbeStatus::UserCancelled => "user_cancelled",
        ProbeStatus::TimedOut => "timed_out",
        ProbeStatus::Unavailable => "unavailable",
        ProbeStatus::Unsupported => "unsupported",
        ProbeStatus::MalformedResponse => "malformed_response",
        ProbeStatus::InfrastructureFailure => "infrastructure_failure",
    }
}

pub open spec fn stage_name(s: ProbeStage) -> Seq<char> {
    match s {
        ProbeStage::Prepare => "prepare"@,
        ProbeStage::Request => "request"@,
        ProbeStage::Response => "response"@,
        ProbeStage::CreateSession => "create_session"@,
        ProbeStage::SelectSources => "select_sources"@,
        ProbeStage::Start => "start"@,
        ProbeStage::StreamsReturned => "streams_returned"@,
        ProbeStage::OpenPipeWireRemote => "open_pipe_wire_remote"@,
        ProbeStage::Cleanup => "cleanup"@,
        ProbeStage::Complete => "complete"@,
    }
}

/// The machine name of a lifecycle stage.
pub fn probe_stage_name(s: ProbeStage) -> (r: &'static str)
    ensures
        r@ == stage_name(s),
{
    match s {
        ProbeStage::Prepare => "prepare",
        ProbeStage::Request => "request",
        ProbeStage::Response => "response",
        ProbeStage::CreateSession => "create_session",
        ProbeStage::SelectSources => "select_sources",
        ProbeStage::Start => "start",
        ProbeStage::StreamsReturned => "streams_returned",
        ProbeStage::OpenPipeWireRemote => "open_pipe_wire_remote",
        ProbeStage::Cleanup => "cleanup",
        ProbeStage::Complete => "complete",
    }
}

pub open spec fn cleanup_name(s: CleanupStatus) -> Seq<char> {
    match s {
        CleanupStatus::NotRequired => "not_required"@,
        CleanupStatus::Completed => "completed"@,
        CleanupStatus::Failed => "failed"@,
        CleanupStatus::Unverified => "unverified"@,
    }
}

/// The machine name of a cleanup status.
pub fn cleanup_status_name(s: CleanupStatus) -> (r: &'static str)
    ensures
        r@ == cleanup_name(s),
{
    match s {
        CleanupStatus::NotRequired => "not_required",
        CleanupStatus::Completed => "completed",
        CleanupStatus::Failed => "failed",
        CleanupStatus::Unverified => "unverified",
    }
}

pub open spec fn resource_name(r: CleanupResource) -> Seq<char> {
    match r {
        CleanupResource::Request => "request"@,
        CleanupResource::Session => "session"@,
        CleanupResource::PipeWireRemote => "pipe_wire_remote"@,
    }
}

/// The machine name of a cleanup resource.
pub fn cleanup_resource_name(r: CleanupResource) -> (s: &'static str)
    ensures
        s@ == resource_name(r),
{
    match r {
        CleanupResource::Request => "request",
        CleanupResource::Session => "session",
        CleanupResource::PipeWireRemote => "pipe_wire_remote",
    }
}

/// The terminal summary of a probe: the operation, stage and cleanup by
/// their machine names, then the resources whose cleanup failed (or `none`).
pub open spec fn probe_text(title: Seq<char>, r: ProbeResult, resources: Seq<Seq<char>>) -> Seq<char> {
    title + "\nOperation: "@ + status_name(r.status_spec()) + "\nStage: "@ + stage_name(r.stage_spec())
        + "\nCleanup: "@ + cleanup_name(r.cleanup_spec().status_spec()) + "\nCleanup resources: "@
        + (if resources.len() == 0 { "none"@ } else { join(resources, ", "@) })
}

pub(crate) fn render_probe(title: &str, result: &ProbeResult, resources: &Vec<String>) -> (r: String)
    ensures
        r@ == probe_text(title@, *result, views(resources@)),
{
    let mut s = String::new();
    append(&mut s, title);
    append(&mut s, "\nOperation: ");
    append(&mut s, probe_status_name(result.status()));
    append(&mut s, "\nStage: ");
    append(&mut s, probe_stage_name(result.stage()));
    append(&mut s, "\nCleanup: ");
    append(&mut s, cleanup_status_name(result.cleanup().status()));
    append(&mut s, "\nCleanup resources: ");
    if resources.len() == 0 {
        append(&mut s, "none");
    } else {
        let joined = join_strings(resources, ", ");
        append(&mut s, joined.as_str());
    }
    s
}

} // verus!
