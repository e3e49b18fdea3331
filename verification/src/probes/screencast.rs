//! The bounded `ScreenCast` lifecycle, `CreateSession` through
//! `OpenPipeWireRemote`: preflight, payload checks, cleanup accounting and
//! the lifecycle itself as a state machine whose actions the caller performs
//! on the bus. The returned descriptor is released before `Session.Close`,
//! and the lifecycle stops before any `PipeWire` handshake or media access.
use vstd::prelude::*;
use crate::model::probe::{
    cleanup_error, first_duplicate, CleanupResource, CleanupResult, CleanupStatus, ProbeKind, ProbeResult, ProbeStage,
    ProbeStatus,
};
use crate::probes::portal::{
    classify_error, classify_spec, interface_body, interface_section, line_with_both, object_path_valid, object_path_ok,
    path_for_sender_ok, any_line_with, probe_result, reported_stage, unsupported_markers, valid_session_path_for_sender,
    SESSION_PATH_PREFIX,
};
use crate::text::{contains_seq, contains_str, lines, lines_seq, views};

verus! {

pub const SCREENCAST_INTERFACE: &'static str = "org.freedesktop.portal.ScreenCast";

pub const SESSION_INTERFACE: &'static str = "org.freedesktop.portal.Session";

/// The `Window` source type, the only one the probe selects.
pub const WINDOW_SOURCE: u32 = 2;

/// Explicit headless parent policy: no window identifier is sent.
pub const HEADLESS_PARENT_WINDOW: &'static str = "";

pub open spec fn screencast_section(xml: Seq<char>) -> Option<Seq<char>> {
    interface_body(xml, "<interface name=\"org.freedesktop.portal.ScreenCast\""@)
}

/// A line of the ScreenCast interface declares the `CreateSession` method.
pub open spec fn supports_create_session(xml: Seq<char>) -> bool {
    match screencast_section(xml) {
        Some(body) => line_with_both(body, "<method "@, "name=\"CreateSession\""@),
        None => false,
    }
}

pub fn introspection_supports_create_session(xml: &str) -> (r: bool)
    ensures
        r == supports_create_session(xml@),
{
    match interface_section(xml, "<interface name=\"org.freedesktop.portal.ScreenCast\"") {
        Some(body) => any_line_with(body.as_str(), "<method ", "name=\"CreateSession\""),
        None => false,
    }
}

/// Some line of `body` contains `a`, `b` and `c`.
pub open spec fn line_with_three(body: Seq<char>, a: Seq<char>, b: Seq<char>, c: Seq<char>) -> bool {
    exists|i: int| 0 <= i < lines_seq(body).len() && contains_seq(#[trigger] lines_seq(body)[i], a) && contains_seq(
        lines_seq(body)[i],
        b,
    ) && contains_seq(lines_seq(body)[i], c)
}

fn any_line_with_three(body: &str, a: &str, b: &str, c: &str) -> (r: bool)
    ensures
        r == line_with_three(body@, a@, b@, c@),
{
    let ls = lines(body);
    let mut i: usize = 0;
    while i < ls.len()
        invariant
            i <= ls@.len(),
            views(ls@) == lines_seq(body@),
            forall|k: int| 0 <= k < i ==> !(contains_seq(#[trigger] lines_seq(body@)[k], a@) && contains_seq(lines_seq(body@)[k], b@)
                && contains_seq(lines_seq(body@)[k], c@)),
        decreases ls@.len() - i,
    {
        assert(lines_seq(body@)[i as int] == ls@[i as int]@);
        let l = ls[i].as_str();
        if contains_str(l, a) && contains_str(l, b) && contains_str(l, c) {
            return true;
        }
        i = i + 1;
    }
    false
}

/// The ScreenCast interface declares `SelectSources` and the `u`-typed
/// `AvailableSourceTypes` property.
pub open spec fn supports_select_sources(xml: Seq<char>) -> bool {
    match screencast_section(xml) {
        Some(body) => line_with_both(body, "<method "@, "name=\"SelectSources\""@) && line_with_three(
            body,
            "<property "@,
            "name=\"AvailableSourceTypes\""@,
            "type=\"u\""@,
        ),
        None => false,
    }
}

pub fn introspection_supports_select_sources(xml: &str) -> (r: bool)
    ensures
        r == supports_select_sources(xml@),
{
    match interface_section(xml, "<interface name=\"org.freedesktop.portal.ScreenCast\"") {
        Some(body) => any_line_with(body.as_str(), "<method ", "name=\"SelectSources\"") && any_line_with_three(
            body.as_str(),
            "<property ",
            "name=\"AvailableSourceTypes\"",
            "type=\"u\"",
        ),
        None => false,
    }
}

/// A usable session handle: a D-Bus object path under this connection's
/// session prefix.
pub open spec fn session_handle_ok(handle: Seq<char>, expected_session_path: Seq<char>) -> bool {
    object_path_ok(handle) && path_for_sender_ok(handle, expected_session_path, SESSION_PATH_PREFIX@)
}

/// Decode the `session_handle` of a `CreateSession` response. `handle` is
/// the entry's text when the entry is a D-Bus string, `None` when it is
/// missing or of another type. A foreign path is never accepted.
pub fn decode_session_handle(handle: Option<&str>, expected_session_path: &str) -> (r: Result<String, ProbeStatus>)
    ensures
        match r {
            Ok(path) => handle is Some && path@ == handle->0@ && session_handle_ok(handle->0@, expected_session_path@),
            Err(status) => status == ProbeStatus::MalformedResponse && !(handle is Some && session_handle_ok(
                handle->0@,
                expected_session_path@,
            )),
        },
{
    let path = match handle {
        Some(p) => p,
        None => return Err(ProbeStatus::MalformedResponse),
    };
    if !object_path_valid(path) {
        return Err(ProbeStatus::MalformedResponse);
    }
    if valid_session_path_for_sender(path, expected_session_path) {
        Ok(path.to_owned())
    } else {
        Err(ProbeStatus::MalformedResponse)
    }
}

/// One element of the `streams` array of a `Start` response, as far as the
/// probe looks at it: whether it is a `(node id, properties)` pair, and the
/// value of each `source_type` property (`None` when that value is not a
/// variant holding a `u32`). Node ids and other metadata are not kept.
#[derive(Debug, Clone, PartialEq, Eq)]
pub struct StreamEntry {
    pub node_and_properties: bool,
    pub source_types: Vec<Option<u32>>,
}

/// Every advertised `source_type` is the Window source.
pub open spec fn window_sources_only(s: Seq<Option<u32>>) -> bool {
    forall|k: int| 0 <= k < s.len() ==> #[trigger] s[k] == Some(WINDOW_SOURCE)
}

/// The `streams` container holds exactly one well-formed stream whose
/// advertised source types, if any, are all Window.
pub open spec fn streams_ok(signature: Option<Seq<char>>, streams: Seq<StreamEntry>) -> bool {
    &&& signature == Some("a(ua{sv})"@)
    &&& streams.len() == 1
    &&& streams[0].node_and_properties
    &&& window_sources_only(streams[0].source_types@)
}

pub open spec fn str_view(o: Option<&str>) -> Option<Seq<char>> {
    match o {
        Some(s) => Some(s@),
        None => None,
    }
}

/// Validate the `a(ua{sv})` stream container of a `Start` response without
/// keeping its node ids. `signature` is that of the `streams` entry, `None`
/// when the entry is missing.
pub fn validate_stream_container(signature: Option<&str>, streams: &Vec<StreamEntry>) -> (r: Result<(), ProbeStatus>)
    ensures
        match r {
            Ok(()) => streams_ok(str_view(signature), streams@),
            Err(status) => status == ProbeStatus::MalformedResponse && !streams_ok(str_view(signature), streams@),
        },
{
    let sig = match signature {
        Some(s) => s,
        None => return Err(ProbeStatus::MalformedResponse),
    };
    if !crate::text::eq_str(sig, "a(ua{sv})") {
        return Err(ProbeStatus::MalformedResponse);
    }
    if streams.len() != 1 {
        return Err(ProbeStatus::MalformedResponse);
    }
    let stream = &streams[0];
    if !stream.node_and_properties {
        return Err(ProbeStatus::MalformedResponse);
    }
    let mut k: usize = 0;
    while k < stream.source_types.len()
        invariant
            k <= stream.source_types@.len(),
            streams@.len() == 1,
            streams@[0] == *stream,
            forall|j: int| 0 <= j < k ==> #[trigger] stream.source_types@[j] == Some(WINDOW_SOURCE),
        decreases stream.source_types@.len() - k,
    {
        let t = stream.source_types[k];
        if t != Some(WINDOW_SOURCE) {
            assert(!window_sources_only(streams@[0].source_types@)) by {
                assert(streams@[0].source_types@[k as int] != Some(WINDOW_SOURCE));
            }
            return Err(ProbeStatus::MalformedResponse);
        }
        k = k + 1;
    }
    Ok(())
}

/// The kinds of `zbus::Error` whose meaning the `OpenPipeWireRemote` step
/// depends on.
#[derive(Debug, Clone, Copy, PartialEq, Eq, Structural)]
pub enum ZbusErrorKind {
    MethodError,
    Fdo,
    InterfaceNotFound,
    Unsupported,
    InvalidReply,
    Variant,
    Other,
}

/// Which variant of `zbus::Error` this is. Nothing is stated of the result:
/// the error comes from the bus.
#[verifier::external_body]
fn zbus_error_kind(error: &zbus::Error) -> (r: ZbusErrorKind)
{
    match error {
        zbus::Error::MethodError(..) => ZbusErrorKind::MethodError,
        zbus::Error::FDO(..) => ZbusErrorKind::Fdo,
        zbus::Error::InterfaceNotFound => ZbusErrorKind::InterfaceNotFound,
        zbus::Error::Unsupported => ZbusErrorKind::Unsupported,
        zbus::Error::InvalidReply => ZbusErrorKind::InvalidReply,
        zbus::Error::Variant(..) => ZbusErrorKind::Variant,
        _ => ZbusErrorKind::Other,
    }
}

/// A cleanup result by its status and resources.
pub open spec fn cview(c: CleanupResult) -> (CleanupStatus, Seq<CleanupResource>) {
    (c.status_spec(), c.resources_spec())
}

pub open spec fn nothing_to_clean() -> (CleanupStatus, Seq<CleanupResource>) {
    (CleanupStatus::NotRequired, Seq::empty())
}

/// A reply type or decoding failure does not prove that no descriptor was
/// sent; any other error is classified by its message.
pub open spec fn remote_error_status(kind: ZbusErrorKind, message_status: ProbeStatus) -> ProbeStatus {
    match kind {
        ZbusErrorKind::InvalidReply | ZbusErrorKind::Variant => ProbeStatus::MalformedResponse,
        _ => message_status,
    }
}

/// A terminal error reply proves that no descriptor was returned; any other
/// failure leaves its ownership unverified.
pub open spec fn remote_error_cleanup(kind: ZbusErrorKind) -> (CleanupStatus, Seq<CleanupResource>) {
    match kind {
        ZbusErrorKind::MethodError | ZbusErrorKind::Fdo | ZbusErrorKind::InterfaceNotFound
        | ZbusErrorKind::Unsupported => nothing_to_clean(),
        _ => (CleanupStatus::Unverified, seq![CleanupResource::PipeWireRemote]),
    }
}

fn single(resource: CleanupResource) -> (v: Vec<CleanupResource>)
    ensures
        v@ == seq![resource],
        first_duplicate(v@) is None,
{
    let mut v: Vec<CleanupResource> = Vec::new();
    v.push(resource);
    assert(v@ =~= seq![resource]);
    proof {
        crate::model::probe::lemma_single_no_duplicate(resource);
    }
    v
}

/// Cleanup `status` owning exactly `resource`.
fn cleanup_of(status: CleanupStatus, resource: CleanupResource) -> (r: CleanupResult)
    requires
        status == CleanupStatus::Failed || status == CleanupStatus::Unverified,
    ensures
        r.valid(),
        cview(r) == (status, seq![resource]),
{
    match CleanupResult::try_new(status, single(resource)) {
        Ok(c) => c,
        Err(_) => CleanupResult::unverified(),
    }
}

/// The cleanup after a failed `OpenPipeWireRemote` call of this kind.
pub fn remote_error_cleanup_of(kind: ZbusErrorKind) -> (r: CleanupResult)
    ensures
        r.valid(),
        cview(r) == remote_error_cleanup(kind),
{
    match kind {
        ZbusErrorKind::MethodError | ZbusErrorKind::Fdo | ZbusErrorKind::InterfaceNotFound
        | ZbusErrorKind::Unsupported => CleanupResult::not_required(),
        _ => cleanup_of(CleanupStatus::Unverified, CleanupResource::PipeWireRemote),
    }
}

/// The cleanup after closing the returned descriptor.
pub open spec fn fd_close_cleanup(closed: bool) -> (CleanupStatus, Seq<CleanupResource>) {
    if closed {
        (CleanupStatus::Completed, Seq::empty())
    } else {
        (CleanupStatus::Failed, seq![CleanupResource::PipeWireRemote])
    }
}

pub fn fd_close_cleanup_of(closed: bool) -> (r: CleanupResult)
    ensures
        r.valid(),
        cview(r) == fd_close_cleanup(closed),
{
    if closed {
        CleanupResult::completed()
    } else {
        cleanup_of(CleanupStatus::Failed, CleanupResource::PipeWireRemote)
    }
}

/// The cleanup after `Session.Close`. A session whose handle the portal
/// returned must be closed, or its cleanup failed; for a session that a
/// malformed response may have created only at the expected path, a missing
/// proxy or a time-out leaves its cleanup unverified. An object that is
/// already gone is never proof of cleanup.
pub open spec fn session_close_cleanup(call: crate::probes::portal::CloseCall, ownership_proven: bool) -> (CleanupStatus, Seq<CleanupResource>) {
    match call {
        crate::probes::portal::CloseCall::Closed => (CleanupStatus::Completed, Seq::empty()),
        crate::probes::portal::CloseCall::ObjectGone => (CleanupStatus::Unverified, seq![CleanupResource::Session]),
        crate::probes::portal::CloseCall::Failed => (CleanupStatus::Failed, seq![CleanupResource::Session]),
        _ => if ownership_proven {
            (CleanupStatus::Failed, seq![CleanupResource::Session])
        } else {
            (CleanupStatus::Unverified, seq![CleanupResource::Session])
        },
    }
}

pub fn session_close_cleanup_of(call: crate::probes::portal::CloseCall, ownership_proven: bool) -> (r: CleanupResult)
    ensures
        r.valid(),
        cview(r) == session_close_cleanup(call, ownership_proven),
{
    match call {
        crate::probes::portal::CloseCall::Closed => CleanupResult::completed(),
        crate::probes::portal::CloseCall::ObjectGone => cleanup_of(CleanupStatus::Unverified, CleanupResource::Session),
        crate::probes::portal::CloseCall::Failed => cleanup_of(CleanupStatus::Failed, CleanupResource::Session),
        _ => if ownership_proven {
            cleanup_of(CleanupStatus::Failed, CleanupResource::Session)
        } else {
            cleanup_of(CleanupStatus::Unverified, CleanupResource::Session)
        },
    }
}

/// `a` followed by the resources of `b` that it does not list yet.
pub open spec fn merged(a: Seq<CleanupResource>, b: Seq<CleanupResource>) -> Seq<CleanupResource>
    decreases b.len(),
{
    if b.len() == 0 {
        a
    } else {
        let m = merged(a, b.drop_last());
        if m.contains(b.last()) {
            m
        } else {
            m.push(b.last())
        }
    }
}

/// The worse of two cleanup states: failed, then unverified, then
/// completed, then not required.
pub open spec fn combined_status(a: CleanupStatus, b: CleanupStatus) -> CleanupStatus {
    if a == CleanupStatus::Failed || b == CleanupStatus::Failed {
        CleanupStatus::Failed
    } else if a == CleanupStatus::Unverified || b == CleanupStatus::Unverified {
        CleanupStatus::Unverified
    } else if a == CleanupStatus::Completed || b == CleanupStatus::Completed {
        CleanupStatus::Completed
    } else {
        CleanupStatus::NotRequired
    }
}

/// Two cleanups of one lifecycle as one: the worse status, and the
/// resources of both, each listed once.
pub open spec fn combined(
    a: (CleanupStatus, Seq<CleanupResource>),
    b: (CleanupStatus, Seq<CleanupResource>),
) -> (CleanupStatus, Seq<CleanupResource>) {
    let status = combined_status(a.0, b.0);
    (status, if status == CleanupStatus::Failed || status == CleanupStatus::Unverified {
        merged(a.1, b.1)
    } else {
        Seq::empty()
    })
}

proof fn lemma_merged(a: Seq<CleanupResource>, b: Seq<CleanupResource>)
    requires
        first_duplicate(a) is None,
    ensures
        first_duplicate(merged(a, b)) is None,
        merged(a, b).len() >= a.len(),
        forall|k: int| 0 <= k < a.len() ==> merged(a, b)[k] == a[k],
        forall|k: int| 0 <= k < b.len() ==> merged(a, b).contains(#[trigger] b[k]),
    decreases b.len(),
{
    if b.len() > 0 {
        lemma_merged(a, b.drop_last());
        let m = merged(a, b.drop_last());
        if !m.contains(b.last()) {
            assert(m.push(b.last()).drop_last() =~= m);
            assert(m.push(b.last())[m.len() as int] == b.last());
        }
        assert forall|k: int| 0 <= k < b.len() implies merged(a, b).contains(#[trigger] b[k]) by {
            if k < b.len() - 1 {
                assert(b.drop_last()[k] == b[k]);
                let w = choose|i: int| 0 <= i < m.len() && m[i] == b[k];
                if !m.contains(b.last()) {
                    assert(merged(a, b)[w] == b[k]);
                }
            } else if !m.contains(b.last()) {
                assert(merged(a, b)[m.len() as int] == b[k]);
            }
        }
    }
}

fn resource_listed(v: &Vec<CleanupResource>, r: CleanupResource) -> (b: bool)
    ensures
        b == v@.contains(r),
{
    let mut i: usize = 0;
    while i < v.len()
        invariant
            i <= v@.len(),
            forall|k: int| 0 <= k < i ==> v@[k] != r,
        decreases v@.len() - i,
    {
        if v[i] == r {
            return true;
        }
        i = i + 1;
    }
    false
}

/// Combine two cleanup results of one lifecycle.
pub fn combine_cleanup(first: &CleanupResult, second: &CleanupResult) -> (r: CleanupResult)
    requires
        first.valid(),
        second.valid(),
    ensures
        r.valid(),
        cview(r) == combined(cview(*first), cview(*second)),
{
    let a = first.failed_resources();
    let b = second.failed_resources();
    let mut resources: Vec<CleanupResource> = Vec::new();
    let mut i: usize = 0;
    while i < a.len()
        invariant
            i <= a@.len(),
            resources@ == a@.take(i as int),
        decreases a@.len() - i,
    {
        resources.push(a[i]);
        i = i + 1;
        assert(resources@ =~= a@.take(i as int));
    }
    assert(a@.take(i as int) =~= a@);
    let mut j: usize = 0;
    while j < b.len()
        invariant
            j <= b@.len(),
            resources@ == merged(a@, b@.take(j as int)),
        decreases b@.len() - j,
    {
        let r = b[j];
        assert(b@.take(j + 1).drop_last() =~= b@.take(j as int));
        if !resource_listed(&resources, r) {
            resources.push(r);
        }
        j = j + 1;
    }
    assert(b@.take(j as int) =~= b@);
    proof {
        lemma_merged(a@, b@);
    }
    let fs = first.status();
    let ss = second.status();
    if fs == CleanupStatus::Failed || ss == CleanupStatus::Failed {
        proof {
            if fs == CleanupStatus::Failed {
                assert(merged(a@, b@)[0] == a@[0]);
            } else {
                assert(merged(a@, b@).contains(b@[0]));
            }
        }
        return match CleanupResult::failed(resources) {
            Ok(c) => c,
            Err(_) => CleanupResult::unverified(),
        };
    }
    if fs == CleanupStatus::Unverified || ss == CleanupStatus::Unverified {
        return if resources.len() == 0 {
            CleanupResult::unverified()
        } else {
            match CleanupResult::unverified_resources(resources) {
                Ok(c) => c,
                Err(_) => CleanupResult::unverified(),
            }
        };
    }
    if fs == CleanupStatus::Completed || ss == CleanupStatus::Completed {
        CleanupResult::completed()
    } else {
        CleanupResult::not_required()
    }
}

/// Combining with a cleanup that had nothing to do changes nothing.
pub proof fn law_combine_with_nothing_is_identity(c: (CleanupStatus, Seq<CleanupResource>))
    requires
        cleanup_error(c.0, c.1) is None,
    ensures
        combined(nothing_to_clean(), c) == c,
        combined(c, nothing_to_clean()) == c,
{
    lemma_merged_empty_left(c.1);
    assert(merged(c.1, Seq::empty()) == c.1);
}

proof fn lemma_merged_empty_left(b: Seq<CleanupResource>)
    requires
        first_duplicate(b) is None,
    ensures
        merged(Seq::empty(), b) == b,
    decreases b.len(),
{
    if b.len() > 0 {
        lemma_merged_empty_left(b.drop_last());
        assert(b.drop_last().push(b.last()) =~= b);
        assert(first_duplicate(b.drop_last()) is None) by {
            if first_duplicate(b.drop_last()) is Some {
            }
        }
    }
}

/// A failure in either cleanup is never erased by combining: the combined
/// cleanup is failed and lists every failed resource of both.
pub proof fn law_combine_keeps_failures(
    a: (CleanupStatus, Seq<CleanupResource>),
    b: (CleanupStatus, Seq<CleanupResource>),
)
    requires
        cleanup_error(a.0, a.1) is None,
        cleanup_error(b.0, b.1) is None,
        a.0 == CleanupStatus::Failed || b.0 == CleanupStatus::Failed,
    ensures
        combined(a, b).0 == CleanupStatus::Failed,
        forall|k: int| 0 <= k < a.1.len() ==> combined(a, b).1.contains(#[trigger] a.1[k]),
        forall|k: int| 0 <= k < b.1.len() ==> combined(a, b).1.contains(#[trigger] b.1[k]),
{
    lemma_merged(a.1, b.1);
    assert forall|k: int| 0 <= k < a.1.len() implies combined(a, b).1.contains(#[trigger] a.1[k]) by {
        assert(merged(a.1, b.1)[k] == a.1[k]);
    }
}

/// The status and cleanup of one lifecycle stage.
#[derive(Debug, Clone, PartialEq, Eq)]
pub struct LifecycleOutcome {
    pub status: ProbeStatus,
    pub cleanup: CleanupResult,
}

/// The outcome of an `OpenPipeWireRemote` call that failed with `error`.
pub fn open_pipe_wire_error_outcome(error: &zbus::Error) -> (r: LifecycleOutcome)
    ensures
        r.cleanup.valid(),
        exists|kind: ZbusErrorKind, message: Seq<char>|
            r.status == remote_error_status(kind, classify_spec(message, unsupported_markers()))
                && cview(r.cleanup) == remote_error_cleanup(kind),
{
    let kind = zbus_error_kind(error);
    let status = match kind {
        ZbusErrorKind::InvalidReply | ZbusErrorKind::Variant => ProbeStatus::MalformedResponse,
        _ => classify_error(error),
    };
    proof {
        if !(kind is InvalidReply || kind is Variant) {
            let m = choose|m: Seq<char>| status == classify_spec(m, unsupported_markers());
            assert(status == remote_error_status(kind, classify_spec(m, unsupported_markers())));
        } else {
            assert(status == remote_error_status(kind, classify_spec(Seq::empty(), unsupported_markers())));
        }
    }
    LifecycleOutcome { status, cleanup: remote_error_cleanup_of(kind) }
}

/// The event for an `OpenPipeWireRemote` call that failed with `error`.
pub fn remote_failed_event(error: &zbus::Error) -> (r: ScreenCastEvent)
    ensures
        exists|kind: ZbusErrorKind, message: Seq<char>|
            r == (ScreenCastEvent::RemoteFailed { kind, message_status: classify_spec(message, unsupported_markers()) }),
{
    let kind = zbus_error_kind(error);
    let message_status = classify_error(error);
    ScreenCastEvent::RemoteFailed { kind, message_status }
}

/// Where the bounded `ScreenCast` lifecycle waits.
#[derive(Debug, Clone, Copy, PartialEq, Eq, Structural)]
pub enum Pending {
    Prepare,
    Metadata,
    Call,
    Recovery,
    RequestClose { unknown_is_completed: bool },
    Response,
    SourceTypes,
    Remote,
    RemoteRecovery,
    RemoteClose,
    SessionClose { ownership_proven: bool },
    Finished,
}

/// The bus work the caller performs next.
#[derive(Debug, Clone, Copy, PartialEq, Eq, Structural)]
pub enum ScreenCastAction {
    /// Connect to the session bus, check the graphical context and
    /// introspect the portal (`CreateSession` alone when the lifecycle stops
    /// there, else `SelectSources`), then install the `Response` match and
    /// create the ScreenCast proxy.
    Prepare,
    /// Create the handle token and expected request path of the stage's
    /// request (and, for `CreateSession`, the session token and path).
    Metadata,
    /// Call the stage's method, racing cancellation and the request budget.
    CallMethod,
    /// Give the interrupted method its recovery budget.
    RecoverCall,
    /// `Request.Close` at the returned path, or else at the expected one.
    CloseRequest { returned_path: bool, unknown_is_completed: bool },
    /// Wait for the request's `Response`.
    WaitResponse,
    /// Read the `AvailableSourceTypes` property.
    ReadSourceTypes,
    /// Call `OpenPipeWireRemote` on the session.
    OpenRemote,
    /// Give the interrupted `OpenPipeWireRemote` its recovery budget.
    RecoverRemote,
    /// Close the returned descriptor.
    CloseRemote,
    /// `Session.Close` at the returned handle, or else at the expected path.
    CloseSession { ownership_proven: bool },
    /// The lifecycle is over: take its result.
    Finish,
}

/// What the caller observed while performing an action.
#[derive(Debug, Clone, Copy, PartialEq, Eq, Structural)]
pub enum ScreenCastEvent {
    Prepared,
    /// Connecting or introspecting failed.
    PrepareFailed { status: ProbeStatus },
    /// Installing the match or creating the proxy failed.
    SetupFailed { status: ProbeStatus },
    MetadataReady,
    MetadataFailed,
    Call(crate::probes::portal::RequestCall),
    Late(crate::probes::portal::LateReply),
    RequestClosed(crate::probes::portal::CloseCall),
    /// The response wait ended; `payload_ok` tells, for a `CreateSession`
    /// success, whether the session handle decoded, and for a `Start`
    /// success, whether the stream container is valid.
    Response { response: crate::probes::portal::ResponseKind, payload_ok: bool },
    SourceTypes { types: u32 },
    SourceTypesFailed { status: ProbeStatus },
    /// A descriptor came back (possibly late).
    RemoteOpened,
    RemoteFailed { kind: ZbusErrorKind, message_status: ProbeStatus },
    RemoteInterrupted { status: ProbeStatus },
    /// The recovery budget ran out with no reply.
    RemoteLost,
    RemoteClosed { closed: bool },
    SessionClosed(crate::probes::portal::CloseCall),
}

/// The abstract state of a lifecycle run.
pub struct RunState {
    pub stop_at: ProbeStage,
    /// The stage the result reports (before a cleanup failure moves it).
    pub stage: ProbeStage,
    pub pending: Pending,
    pub status: ProbeStatus,
    /// Cleanup of the current stage's request or descriptor.
    pub cleanup: (CleanupStatus, Seq<CleanupResource>),
    /// A session handle for this connection came back and must be closed.
    pub session_owned: bool,
}

pub open spec fn lifecycle_stage(s: ProbeStage) -> bool {
    s == ProbeStage::CreateSession || s == ProbeStage::SelectSources || s == ProbeStage::Start
        || s == ProbeStage::StreamsReturned || s == ProbeStage::OpenPipeWireRemote
}

pub open spec fn run_wf(s: RunState) -> bool {
    &&& lifecycle_stage(s.stop_at)
    &&& (lifecycle_stage(s.stage) || s.stage == ProbeStage::Prepare)
    &&& cleanup_error(s.cleanup.0, s.cleanup.1) is None
}

/// What holds of every state a run reaches: a session is owned exactly
/// from a usable `CreateSession` response until `Session.Close`, and the
/// descriptor steps run on an owned session.
pub open spec fn reachable(s: RunState) -> bool {
    &&& s.pending == Pending::Prepare ==> !s.session_owned && s.stage == ProbeStage::CreateSession
    &&& s.session_owned && s.stage == ProbeStage::CreateSession ==> s.pending == (Pending::SessionClose { ownership_proven: true })
    &&& s.pending == Pending::Finished ==> !s.session_owned
    &&& (s.pending == Pending::Remote || s.pending == Pending::RemoteRecovery || s.pending == Pending::RemoteClose)
        ==> s.session_owned && s.stage == ProbeStage::OpenPipeWireRemote
    &&& (s.stage == ProbeStage::SelectSources || s.stage == ProbeStage::Start || s.stage == ProbeStage::StreamsReturned
        || s.stage == ProbeStage::OpenPipeWireRemote) && s.pending != Pending::Finished ==> s.session_owned
    &&& s.pending == (Pending::SessionClose { ownership_proven: false }) ==> !s.session_owned
    &&& s.pending == (Pending::SessionClose { ownership_proven: true }) ==> s.session_owned
    &&& s.stage == ProbeStage::Prepare ==> s.pending == Pending::Finished
}

/// Every step keeps a reachable state reachable.
pub proof fn lemma_step_reachable(s: RunState, e: ScreenCastEvent)
    requires
        run_wf(s),
        reachable(s),
        expects(s.pending, e),
    ensures
        reachable(step_spec(s, e).0),
{
}

/// Whether `pending` waits for an event of this kind.
pub open spec fn expects(pending: Pending, e: ScreenCastEvent) -> bool {
    match pending {
        Pending::Prepare => e is Prepared || e is PrepareFailed || e is SetupFailed,
        Pending::Metadata => e is MetadataReady || e is MetadataFailed,
        Pending::Call => e is Call,
        Pending::Recovery => e is Late,
        Pending::RequestClose { .. } => e is RequestClosed,
        Pending::Response => e is Response,
        Pending::SourceTypes => e is SourceTypes || e is SourceTypesFailed,
        Pending::Remote => e is RemoteOpened || e is RemoteFailed || e is RemoteInterrupted,
        Pending::RemoteRecovery => e is RemoteOpened || e is RemoteFailed || e is RemoteLost,
        Pending::RemoteClose => e is RemoteClosed,
        Pending::SessionClose { .. } => e is SessionClosed,
        Pending::Finished => false,
    }
}

pub open spec fn with_state(
    s: RunState,
    stage: ProbeStage,
    pending: Pending,
    status: ProbeStatus,
    cleanup: (CleanupStatus, Seq<CleanupResource>),
    session_owned: bool,
) -> RunState {
    RunState { stop_at: s.stop_at, stage, pending, status, cleanup, session_owned }
}

/// Report `status` with `cleanup`, closing an owned session first.
pub open spec fn conclude(s: RunState, status: ProbeStatus, cleanup: (CleanupStatus, Seq<CleanupResource>)) -> (RunState, ScreenCastAction) {
    if s.session_owned {
        (with_state(s, s.stage, Pending::SessionClose { ownership_proven: true }, status, cleanup, true),
            ScreenCastAction::CloseSession { ownership_proven: true })
    } else {
        (with_state(s, s.stage, Pending::Finished, status, cleanup, false), ScreenCastAction::Finish)
    }
}

/// Move to `pending` and ask for `action`, keeping everything else.
pub open spec fn ask(s: RunState, pending: Pending, action: ScreenCastAction) -> (RunState, ScreenCastAction) {
    (with_state(s, s.stage, pending, s.status, s.cleanup, s.session_owned), action)
}

/// The decisions after a response ended the request (an outcome, or a
/// malformed signal).
pub open spec fn after_terminal_response(s: RunState, response: crate::probes::portal::ResponseKind, payload_ok: bool) -> (RunState, ScreenCastAction) {
    let status = crate::probes::portal::response_status(response);
    let success = response == (crate::probes::portal::ResponseKind::Outcome { code: 0 });
    if s.stage == ProbeStage::CreateSession {
        if success && payload_ok {
            if s.stop_at == ProbeStage::CreateSession {
                (with_state(s, s.stage, Pending::SessionClose { ownership_proven: true }, ProbeStatus::Success, nothing_to_clean(), true),
                    ScreenCastAction::CloseSession { ownership_proven: true })
            } else {
                (with_state(s, ProbeStage::SelectSources, Pending::SourceTypes, ProbeStatus::Success, nothing_to_clean(), true),
                    ScreenCastAction::ReadSourceTypes)
            }
        } else if success || response is MalformedResponse {
            (with_state(s, s.stage, Pending::SessionClose { ownership_proven: false }, ProbeStatus::MalformedResponse, nothing_to_clean(), false),
                ScreenCastAction::CloseSession { ownership_proven: false })
        } else {
            (with_state(s, s.stage, Pending::Finished, status, nothing_to_clean(), false), ScreenCastAction::Finish)
        }
    } else if s.stage == ProbeStage::SelectSources {
        if s.stop_at != ProbeStage::SelectSources && status == ProbeStatus::Success {
            (with_state(s, ProbeStage::Start, Pending::Metadata, status, nothing_to_clean(), s.session_owned),
                ScreenCastAction::Metadata)
        } else {
            conclude(s, status, nothing_to_clean())
        }
    } else if (s.stop_at == ProbeStage::StreamsReturned || s.stop_at == ProbeStage::OpenPipeWireRemote) && success {
        if !payload_ok {
            conclude(with_state(s, ProbeStage::StreamsReturned, s.pending, s.status, s.cleanup, s.session_owned),
                ProbeStatus::MalformedResponse, nothing_to_clean())
        } else if s.stop_at == ProbeStage::OpenPipeWireRemote {
            (with_state(s, ProbeStage::OpenPipeWireRemote, Pending::Remote, status, nothing_to_clean(), s.session_owned),
                ScreenCastAction::OpenRemote)
        } else {
            conclude(with_state(s, ProbeStage::StreamsReturned, s.pending, s.status, s.cleanup, s.session_owned),
                status, nothing_to_clean())
        }
    } else {
        conclude(s, status, nothing_to_clean())
    }
}

/// One step of the lifecycle: the next state and the caller's next action.
pub open spec fn step_spec(s: RunState, e: ScreenCastEvent) -> (RunState, ScreenCastAction) {
    match e {
        ScreenCastEvent::Prepared => ask(s, Pending::Metadata, ScreenCastAction::Metadata),
        ScreenCastEvent::PrepareFailed { status } => (with_state(s, ProbeStage::Prepare, Pending::Finished, status,
            nothing_to_clean(), false), ScreenCastAction::Finish),
        ScreenCastEvent::SetupFailed { status } => (with_state(s, ProbeStage::CreateSession, Pending::Finished, status,
            nothing_to_clean(), false), ScreenCastAction::Finish),
        ScreenCastEvent::MetadataReady => ask(s, Pending::Call, ScreenCastAction::CallMethod),
        ScreenCastEvent::MetadataFailed => conclude(s, ProbeStatus::InfrastructureFailure, nothing_to_clean()),
        ScreenCastEvent::Call(call) => match crate::probes::portal::after_request_call_spec(call) {
            crate::probes::portal::RequestStep::Wait => ask(s, Pending::Response, ScreenCastAction::WaitResponse),
            crate::probes::portal::RequestStep::Recover { status } => (with_state(s, s.stage, Pending::Recovery, status,
                s.cleanup, s.session_owned), ScreenCastAction::RecoverCall),
            crate::probes::portal::RequestStep::Close { returned_path, unknown_is_completed, status } => (with_state(
                s, s.stage, Pending::RequestClose { unknown_is_completed }, status, s.cleanup, s.session_owned),
                ScreenCastAction::CloseRequest { returned_path, unknown_is_completed }),
            crate::probes::portal::RequestStep::Done { status } => conclude(s, status, nothing_to_clean()),
        },
        ScreenCastEvent::Late(late) => match crate::probes::portal::after_late_reply_spec(late, s.status) {
            crate::probes::portal::RequestStep::Close { returned_path, unknown_is_completed, status } => (with_state(
                s, s.stage, Pending::RequestClose { unknown_is_completed }, status, s.cleanup, s.session_owned),
                ScreenCastAction::CloseRequest { returned_path, unknown_is_completed }),
            _ => conclude(s, s.status, nothing_to_clean()),
        },
        ScreenCastEvent::RequestClosed(call) => match s.pending {
            Pending::RequestClose { unknown_is_completed } => conclude(
                s,
                s.status,
                (crate::probes::portal::request_close_status(call, unknown_is_completed),
                    if crate::probes::portal::request_close_status(call, unknown_is_completed) == CleanupStatus::Failed {
                    seq![CleanupResource::Request]
                } else {
                    Seq::empty()
                }),
            ),
            _ => conclude(s, s.status, s.cleanup),
        },
        ScreenCastEvent::Response { response, payload_ok } => if !response.ends_request_spec() {
            (with_state(s, s.stage, Pending::RequestClose { unknown_is_completed: true },
                crate::probes::portal::response_status(response), s.cleanup, s.session_owned),
                ScreenCastAction::CloseRequest { returned_path: true, unknown_is_completed: true })
        } else {
            after_terminal_response(s, response, payload_ok)
        },
        ScreenCastEvent::SourceTypes { types } => if types & WINDOW_SOURCE == 0 {
            conclude(s, ProbeStatus::Unsupported, nothing_to_clean())
        } else {
            ask(s, Pending::Metadata, ScreenCastAction::Metadata)
        },
        ScreenCastEvent::SourceTypesFailed { status } => conclude(s, status, nothing_to_clean()),
        ScreenCastEvent::RemoteOpened => if s.pending == Pending::Remote {
            (with_state(s, s.stage, Pending::RemoteClose, ProbeStatus::Success, s.cleanup, s.session_owned),
                ScreenCastAction::CloseRemote)
        } else {
            ask(s, Pending::RemoteClose, ScreenCastAction::CloseRemote)
        },
        ScreenCastEvent::RemoteFailed { kind, message_status } => if s.pending == Pending::Remote {
            conclude(s, remote_error_status(kind, message_status), remote_error_cleanup(kind))
        } else {
            conclude(s, s.status, remote_error_cleanup(kind))
        },
        ScreenCastEvent::RemoteInterrupted { status } => (with_state(s, s.stage, Pending::RemoteRecovery, status,
            s.cleanup, s.session_owned), ScreenCastAction::RecoverRemote),
        ScreenCastEvent::RemoteLost => conclude(s, s.status, (CleanupStatus::Unverified, seq![CleanupResource::PipeWireRemote])),
        ScreenCastEvent::RemoteClosed { closed } => conclude(s, s.status, fd_close_cleanup(closed)),
        ScreenCastEvent::SessionClosed(call) => match s.pending {
            Pending::SessionClose { ownership_proven } => (with_state(s, s.stage, Pending::Finished, s.status,
                combined(s.cleanup, session_close_cleanup(call, ownership_proven)), false), ScreenCastAction::Finish),
            _ => (with_state(s, s.stage, Pending::Finished, s.status, s.cleanup, false), ScreenCastAction::Finish),
        },
    }
}

/// A run of the bounded `ScreenCast` lifecycle, stopping after `stop_at`.
pub struct ScreenCastRun {
    stop_at: ProbeStage,
    stage: ProbeStage,
    pending: Pending,
    status: ProbeStatus,
    cleanup: CleanupResult,
    session_owned: bool,
}

impl View for ScreenCastRun {
    type V = RunState;

    closed spec fn view(&self) -> RunState {
        RunState {
            stop_at: self.stop_at,
            stage: self.stage,
            pending: self.pending,
            status: self.status,
            cleanup: cview(self.cleanup),
            session_owned: self.session_owned,
        }
    }
}

impl ScreenCastRun {
    closed spec fn core_wf(&self) -> bool {
        &&& run_wf(self@)
        &&& self.cleanup.valid()
    }

    pub closed spec fn wf(&self) -> bool {
        &&& self.core_wf()
        &&& reachable(self@)
    }

    /// Start a run that stops after `stop_at`: `CreateSession`,
    /// `SelectSources`, `Start`, `StreamsReturned` or `OpenPipeWireRemote`.
    pub fn new(stop_at: ProbeStage) -> (r: (ScreenCastRun, ScreenCastAction))
        requires
            lifecycle_stage(stop_at),
        ensures
            r.0.wf(),
            r.0@.stop_at == stop_at,
            r.0@.stage == ProbeStage::CreateSession,
            r.0@.pending == Pending::Prepare,
            r.0@.cleanup == nothing_to_clean(),
            !r.0@.session_owned,
            r.1 == ScreenCastAction::Prepare,
    {
        let cleanup = CleanupResult::not_required();
        proof {
            assert(cview(cleanup) == nothing_to_clean());
        }
        (ScreenCastRun {
            stop_at,
            stage: ProbeStage::CreateSession,
            pending: Pending::Prepare,
            status: ProbeStatus::Success,
            cleanup,
            session_owned: false,
        }, ScreenCastAction::Prepare)
    }

    /// Whether the run waits for an event of this kind.
    pub fn accepts(&self, e: &ScreenCastEvent) -> (r: bool)
        ensures
            r == expects(self@.pending, *e),
    {
        match self.pending {
            Pending::Prepare => matches!(e, ScreenCastEvent::Prepared | ScreenCastEvent::PrepareFailed { .. } | ScreenCastEvent::SetupFailed { .. }),
            Pending::Metadata => matches!(e, ScreenCastEvent::MetadataReady | ScreenCastEvent::MetadataFailed),
            Pending::Call => matches!(e, ScreenCastEvent::Call(..)),
            Pending::Recovery => matches!(e, ScreenCastEvent::Late(..)),
            Pending::RequestClose { .. } => matches!(e, ScreenCastEvent::RequestClosed(..)),
            Pending::Response => matches!(e, ScreenCastEvent::Response { .. }),
            Pending::SourceTypes => matches!(e, ScreenCastEvent::SourceTypes { .. } | ScreenCastEvent::SourceTypesFailed { .. }),
            Pending::Remote => matches!(e, ScreenCastEvent::RemoteOpened | ScreenCastEvent::RemoteFailed { .. } | ScreenCastEvent::RemoteInterrupted { .. }),
            Pending::RemoteRecovery => matches!(e, ScreenCastEvent::RemoteOpened | ScreenCastEvent::RemoteFailed { .. } | ScreenCastEvent::RemoteLost),
            Pending::RemoteClose => matches!(e, ScreenCastEvent::RemoteClosed { .. }),
            Pending::SessionClose { .. } => matches!(e, ScreenCastEvent::SessionClosed(..)),
            Pending::Finished => false,
        }
    }

    fn conclude_with(self, status: ProbeStatus, cleanup: CleanupResult) -> (r: (ScreenCastRun, ScreenCastAction))
        requires
            self.core_wf(),
            cleanup.valid(),
        ensures
            r.0.core_wf(),
            (r.0@, r.1) == conclude(self@, status, cview(cleanup)),
    {
        if self.session_owned {
            (ScreenCastRun {
                stop_at: self.stop_at,
                stage: self.stage,
                pending: Pending::SessionClose { ownership_proven: true },
                status,
                cleanup,
                session_owned: true,
            }, ScreenCastAction::CloseSession { ownership_proven: true })
        } else {
            (ScreenCastRun {
                stop_at: self.stop_at,
                stage: self.stage,
                pending: Pending::Finished,
                status,
                cleanup,
                session_owned: false,
            }, ScreenCastAction::Finish)
        }
    }

    fn moved(self, stage: ProbeStage, pending: Pending, status: ProbeStatus, cleanup: CleanupResult, session_owned: bool) -> (r: ScreenCastRun)
        requires
            self.core_wf(),
            cleanup.valid(),
            lifecycle_stage(stage) || stage == ProbeStage::Prepare,
        ensures
            r.core_wf(),
            r@ == with_state(self@, stage, pending, status, cview(cleanup), session_owned),
    {
        ScreenCastRun { stop_at: self.stop_at, stage, pending, status, cleanup, session_owned }
    }

    fn after_terminal(self, response: crate::probes::portal::ResponseKind, payload_ok: bool) -> (r: (ScreenCastRun, ScreenCastAction))
        requires
            self.core_wf(),
            response.ends_request_spec(),
        ensures
            r.0.core_wf(),
            (r.0@, r.1) == after_terminal_response(self@, response, payload_ok),
    {
        let status = crate::probes::portal::response_outcome_status(response);
        let success = response == (crate::probes::portal::ResponseKind::Outcome { code: 0 });
        let nothing = CleanupResult::not_required();
        proof {
            assert(cview(nothing) == nothing_to_clean());
        }
        if self.stage == ProbeStage::CreateSession {
            if success && payload_ok {
                if self.stop_at == ProbeStage::CreateSession {
                    let stage = self.stage;
                    (self.moved(stage, Pending::SessionClose { ownership_proven: true }, ProbeStatus::Success, nothing, true),
                        ScreenCastAction::CloseSession { ownership_proven: true })
                } else {
                    (self.moved(ProbeStage::SelectSources, Pending::SourceTypes, ProbeStatus::Success, nothing, true),
                        ScreenCastAction::ReadSourceTypes)
                }
            } else if success || matches!(response, crate::probes::portal::ResponseKind::MalformedResponse) {
                let stage = self.stage;
                (self.moved(stage, Pending::SessionClose { ownership_proven: false }, ProbeStatus::MalformedResponse, nothing, false),
                    ScreenCastAction::CloseSession { ownership_proven: false })
            } else {
                let stage = self.stage;
                (self.moved(stage, Pending::Finished, status, nothing, false), ScreenCastAction::Finish)
            }
        } else if self.stage == ProbeStage::SelectSources {
            if self.stop_at != ProbeStage::SelectSources && status == ProbeStatus::Success {
                let owned = self.session_owned;
                (self.moved(ProbeStage::Start, Pending::Metadata, status, nothing, owned), ScreenCastAction::Metadata)
            } else {
                self.conclude_with(status, nothing)
            }
        } else if (self.stop_at == ProbeStage::StreamsReturned || self.stop_at == ProbeStage::OpenPipeWireRemote) && success {
            let owned = self.session_owned;
            let pending = self.pending;
            let st = self.status;
            if !payload_ok {
                let c = self.cleanup.duplicate();
                let s = self.moved(ProbeStage::StreamsReturned, pending, st, c, owned);
                s.conclude_with(ProbeStatus::MalformedResponse, nothing)
            } else if self.stop_at == ProbeStage::OpenPipeWireRemote {
                (self.moved(ProbeStage::OpenPipeWireRemote, Pending::Remote, status, nothing, owned), ScreenCastAction::OpenRemote)
            } else {
                let c = self.cleanup.duplicate();
                let s = self.moved(ProbeStage::StreamsReturned, pending, st, c, owned);
                s.conclude_with(status, nothing)
            }
        } else {
            self.conclude_with(status, nothing)
        }
    }

    /// Advance the run by what the caller observed.
    pub fn step(self, e: ScreenCastEvent) -> (r: (ScreenCastRun, ScreenCastAction))
        requires
            self.wf(),
            expects(self@.pending, e),
        ensures
            r.0.wf(),
            (r.0@, r.1) == step_spec(self@, e),
    {
        proof {
            lemma_step_reachable(self@, e);
        }
        let nothing = CleanupResult::not_required();
        proof {
            assert(cview(nothing) == nothing_to_clean());
        }
        let stage = self.stage;
        let st = self.status;
        let owned = self.session_owned;
        match e {
            ScreenCastEvent::Prepared => {
                let c = self.cleanup.duplicate();
                (self.moved(stage, Pending::Metadata, st, c, owned), ScreenCastAction::Metadata)
            },
            ScreenCastEvent::PrepareFailed { status } => (self.moved(ProbeStage::Prepare, Pending::Finished, status, nothing, false),
                ScreenCastAction::Finish),
            ScreenCastEvent::SetupFailed { status } => (self.moved(ProbeStage::CreateSession, Pending::Finished, status, nothing, false),
                ScreenCastAction::Finish),
            ScreenCastEvent::MetadataReady => {
                let c = self.cleanup.duplicate();
                (self.moved(stage, Pending::Call, st, c, owned), ScreenCastAction::CallMethod)
            },
            ScreenCastEvent::MetadataFailed => self.conclude_with(ProbeStatus::InfrastructureFailure, nothing),
            ScreenCastEvent::Call(call) => match crate::probes::portal::after_request_call(call) {
                crate::probes::portal::RequestStep::Wait => {
                    let c = self.cleanup.duplicate();
                    (self.moved(stage, Pending::Response, st, c, owned), ScreenCastAction::WaitResponse)
                },
                crate::probes::portal::RequestStep::Recover { status } => {
                    let c = self.cleanup.duplicate();
                    (self.moved(stage, Pending::Recovery, status, c, owned), ScreenCastAction::RecoverCall)
                },
                crate::probes::portal::RequestStep::Close { returned_path, unknown_is_completed, status } => {
                    let c = self.cleanup.duplicate();
                    (self.moved(stage, Pending::RequestClose { unknown_is_completed }, status, c, owned),
                        ScreenCastAction::CloseRequest { returned_path, unknown_is_completed })
                },
                crate::probes::portal::RequestStep::Done { status } => self.conclude_with(status, nothing),
            },
            ScreenCastEvent::Late(late) => match crate::probes::portal::after_late_reply(late, st) {
                crate::probes::portal::RequestStep::Close { returned_path, unknown_is_completed, status } => {
                    let c = self.cleanup.duplicate();
                    (self.moved(stage, Pending::RequestClose { unknown_is_completed }, status, c, owned),
                        ScreenCastAction::CloseRequest { returned_path, unknown_is_completed })
                },
                _ => self.conclude_with(st, nothing),
            },
            ScreenCastEvent::RequestClosed(call) => match self.pending {
                Pending::RequestClose { unknown_is_completed } => {
                    let c = crate::probes::portal::request_close_cleanup(call, unknown_is_completed);
                    self.conclude_with(st, c)
                },
                _ => {
                    let c = self.cleanup.duplicate();
                    self.conclude_with(st, c)
                },
            },
            ScreenCastEvent::Response { response, payload_ok } => if !response.ends_request() {
                let status = crate::probes::portal::response_outcome_status(response);
                let c = self.cleanup.duplicate();
                (self.moved(stage, Pending::RequestClose { unknown_is_completed: true }, status, c, owned),
                    ScreenCastAction::CloseRequest { returned_path: true, unknown_is_completed: true })
            } else {
                self.after_terminal(response, payload_ok)
            },
            ScreenCastEvent::SourceTypes { types } => if types & WINDOW_SOURCE == 0 {
                self.conclude_with(ProbeStatus::Unsupported, nothing)
            } else {
                let c = self.cleanup.duplicate();
                (self.moved(stage, Pending::Metadata, st, c, owned), ScreenCastAction::Metadata)
            },
            ScreenCastEvent::SourceTypesFailed { status } => self.conclude_with(status, nothing),
            ScreenCastEvent::RemoteOpened => {
                let status = if self.pending == Pending::Remote {
                    ProbeStatus::Success
                } else {
                    st
                };
                let c = self.cleanup.duplicate();
                (self.moved(stage, Pending::RemoteClose, status, c, owned), ScreenCastAction::CloseRemote)
            },
            ScreenCastEvent::RemoteFailed { kind, message_status } => {
                let status = if self.pending == Pending::Remote {
                    match kind {
                        ZbusErrorKind::InvalidReply | ZbusErrorKind::Variant => ProbeStatus::MalformedResponse,
                        _ => message_status,
                    }
                } else {
                    st
                };
                self.conclude_with(status, remote_error_cleanup_of(kind))
            },
            ScreenCastEvent::RemoteInterrupted { status } => {
                let c = self.cleanup.duplicate();
                (self.moved(stage, Pending::RemoteRecovery, status, c, owned), ScreenCastAction::RecoverRemote)
            },
            ScreenCastEvent::RemoteLost => {
                let c = cleanup_of(CleanupStatus::Unverified, CleanupResource::PipeWireRemote);
                self.conclude_with(st, c)
            },
            ScreenCastEvent::RemoteClosed { closed } => {
                let c = fd_close_cleanup_of(closed);
                self.conclude_with(st, c)
            },
            ScreenCastEvent::SessionClosed(call) => match self.pending {
                Pending::SessionClose { ownership_proven } => {
                    let sc = session_close_cleanup_of(call, ownership_proven);
                    let c = combine_cleanup(&self.cleanup, &sc);
                    (self.moved(stage, Pending::Finished, st, c, false), ScreenCastAction::Finish)
                },
                _ => {
                    let c = self.cleanup.duplicate();
                    (self.moved(stage, Pending::Finished, st, c, false), ScreenCastAction::Finish)
                },
            },
        }
    }

    /// Where the run waits.
    pub fn pending(&self) -> (r: Pending)
        ensures
            r == self@.pending,
    {
        self.pending
    }

    /// The stage whose request, session or descriptor the next action
    /// concerns.
    pub fn stage(&self) -> (r: ProbeStage)
        ensures
            r == self@.stage,
    {
        self.stage
    }

    /// The terminal result of a finished run.
    pub fn result(&self) -> (r: ProbeResult)
        requires
            self.wf(),
            self@.pending == Pending::Finished,
        ensures
            r.probe_spec() == ProbeKind::ScreenCast,
            r.stage_spec() == reported_stage(self@.stage, self@.cleanup.0),
            r.status_spec() == self@.status,
            cview(r.cleanup_spec()) == self@.cleanup,
            r.valid(),
    {
        result(self.stage, self.status, self.cleanup.duplicate())
    }
}

/// The terminal `ScreenCast` result.
pub fn result(stage: ProbeStage, status: ProbeStatus, cleanup: CleanupResult) -> (r: ProbeResult)
    requires
        stage.valid_for(ProbeKind::ScreenCast),
        cleanup.valid(),
    ensures
        r.probe_spec() == ProbeKind::ScreenCast,
        r.stage_spec() == reported_stage(stage, cleanup.status_spec()),
        r.status_spec() == status,
        r.cleanup_spec() == cleanup,
        r.valid(),
{
    probe_result(ProbeKind::ScreenCast, stage, status, cleanup)
}

/// A session that came back usable is always closed: while one is owned
/// and not being closed, no step finishes the run or gives it up.
pub proof fn law_owned_session_is_closed_before_finishing(s: RunState, e: ScreenCastEvent)
    requires
        run_wf(s),
        reachable(s),
        expects(s.pending, e),
        s.session_owned,
        !(s.pending is SessionClose),
    ensures
        step_spec(s, e).1 != ScreenCastAction::Finish,
        step_spec(s, e).0.session_owned,
{
}

/// A `Response` signal ends its request: after an outcome or a malformed
/// signal no `Request.Close` is sent.
pub proof fn law_no_request_close_after_response(s: RunState, response: crate::probes::portal::ResponseKind, payload_ok: bool)
    requires
        run_wf(s),
        reachable(s),
        s.pending == Pending::Response,
        response.ends_request_spec(),
    ensures
        !(step_spec(s, ScreenCastEvent::Response { response, payload_ok }).1 is CloseRequest),
{
}

/// A returned descriptor is released before anything else happens, in
/// particular before `Session.Close`.
pub proof fn law_descriptor_closed_first(s: RunState)
    requires
        run_wf(s),
        reachable(s),
        s.pending == Pending::Remote || s.pending == Pending::RemoteRecovery,
    ensures
        step_spec(s, ScreenCastEvent::RemoteOpened).1 == ScreenCastAction::CloseRemote,
        step_spec(s, ScreenCastEvent::RemoteOpened).0.pending == Pending::RemoteClose,
{
}

/// Once a session is owned, its close status enters the result: the final
/// cleanup combines the stage's cleanup with the session's.
pub proof fn law_session_cleanup_is_reported(s: RunState, call: crate::probes::portal::CloseCall)
    requires
        run_wf(s),
        reachable(s),
        s.pending is SessionClose,
    ensures
        step_spec(s, ScreenCastEvent::SessionClosed(call)).0.cleanup == combined(
            s.cleanup,
            session_close_cleanup(call, s.pending->ownership_proven),
        ),
        step_spec(s, ScreenCastEvent::SessionClosed(call)).1 == ScreenCastAction::Finish,
{
}

} // verus!
