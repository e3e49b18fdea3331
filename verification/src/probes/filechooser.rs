//! The explicit `FileChooser` probe: preflight, response decoding and the
//! terminal result. The selected file is never read: a response is checked
//! only for the type of its `uris` entry.
use vstd::prelude::*;
use crate::model::probe::{CleanupResource, CleanupResult, CleanupStatus, ProbeKind, ProbeResult, ProbeStage, ProbeStatus};
use crate::probes::portal::{
    classify_message_with, classify_spec, cleanup_fits, cleanup_resource_name, error_message, interface_body,
    interface_section, probe_result, probe_text, render_probe, reported_stage, resource_name, CloseCall,
};
use crate::text::{contains_seq, contains_str, eq_str, views};

verus! {

pub const FILE_CHOOSER_INTERFACE: &'static str = "org.freedesktop.portal.FileChooser";

/// Title of the file dialog the probe opens.
pub const FILE_CHOOSER_TITLE: &'static str = "PortalDoctor FileChooser probe";

/// How waiting for the `OpenFile` response ended.
#[derive(Debug, Clone, Copy, PartialEq, Eq, Structural)]
pub enum ResponseWait {
    Outcome(ProbeStatus),
    UserCancelled,
    TimedOut,
}

/// How the `OpenFile` call itself answered.
#[derive(Debug, Clone, Copy, PartialEq, Eq, Structural)]
pub enum OpenFileCall {
    /// A path came back; `valid_path` tells whether it is a request path.
    Reply { valid_path: bool },
    Failed { status: ProbeStatus },
    TimedOut,
}

/// The interface section declares the `OpenFile` method.
pub open spec fn supports_filechooser(xml: Seq<char>) -> bool {
    match interface_body(xml, "<interface name=\"org.freedesktop.portal.FileChooser\""@) {
        Some(body) => contains_seq(body, "<method name=\"OpenFile\""@),
        None => false,
    }
}

/// Check only the introspection structure this probe needs.
pub fn introspection_supports_filechooser(xml: &str) -> (r: bool)
    ensures
        r == supports_filechooser(xml@),
{
    match interface_section(xml, "<interface name=\"org.freedesktop.portal.FileChooser\"") {
        Some(body) => contains_str(body.as_str(), "<method name=\"OpenFile\""),
        None => false,
    }
}

pub open spec fn filechooser_unsupported_markers() -> Seq<Seq<char>> {
    seq![
        "unknownmethod"@, "unknown method"@, "unknowninterface"@, "unknown interface"@, "not supported"@,
        "notsupported"@, "notimplemented"@,
    ]
}

/// The probe status a D-Bus error message stands for.
pub fn classify_error_message(message: &str) -> (r: ProbeStatus)
    ensures
        r == classify_spec(message@, filechooser_unsupported_markers()),
{
    let unsupported: Vec<&str> = vec![
        "unknownmethod", "unknown method", "unknowninterface", "unknown interface", "not supported",
        "notsupported", "notimplemented",
    ];
    assert(unsupported@.map_values(|p: &str| p@) =~= filechooser_unsupported_markers());
    classify_message_with(message, &unsupported)
}

/// The probe status of a D-Bus error, by its message.
pub fn classify_error(error: &zbus::Error) -> (r: ProbeStatus)
    ensures
        exists|message: Seq<char>| r == classify_spec(message, filechooser_unsupported_markers()),
{
    let message = error_message(error);
    let r = classify_error_message(message.as_str());
    assert(r == classify_spec(message@, filechooser_unsupported_markers()));
    r
}

/// The `uris` entry is an array of strings: its D-Bus signature is `as`.
pub fn has_uri_array(uris_signature: Option<&str>) -> (r: bool)
    ensures
        r == (uris_signature is Some && uris_signature->0@ == "as"@),
{
    match uris_signature {
        Some(sig) => eq_str(sig, "as"),
        None => false,
    }
}

/// `0` with a URI array is a success, `1` a cancellation, `2` a portal
/// failure; anything else, `0` without URIs included, is malformed.
pub open spec fn decode_spec(code: u32, has_uris: bool) -> ProbeStatus {
    if code == 0 && has_uris {
        ProbeStatus::Success
    } else if code == 1 {
        ProbeStatus::UserCancelled
    } else if code == 2 {
        ProbeStatus::InfrastructureFailure
    } else {
        ProbeStatus::MalformedResponse
    }
}

/// Decode a `Response` by its code and the signature of its `uris` entry.
pub fn decode_response(code: u32, uris_signature: Option<&str>) -> (r: ProbeStatus)
    ensures
        r == decode_spec(code, uris_signature is Some && uris_signature->0@ == "as"@),
{
    if code == 0 && has_uri_array(uris_signature) {
        ProbeStatus::Success
    } else if code == 1 {
        ProbeStatus::UserCancelled
    } else if code == 2 {
        ProbeStatus::InfrastructureFailure
    } else {
        ProbeStatus::MalformedResponse
    }
}

/// A cleanup this probe may report: it owns a request at most.
pub open spec fn fits(cleanup: CleanupResult) -> bool {
    cleanup_fits(ProbeKind::FileChooser, cleanup)
}

/// The terminal `FileChooser` result.
pub fn result(stage: ProbeStage, status: ProbeStatus, cleanup: CleanupResult) -> (r: ProbeResult)
    requires
        stage.valid_for(ProbeKind::FileChooser),
        fits(cleanup),
    ensures
        r.probe_spec() == ProbeKind::FileChooser,
        r.stage_spec() == reported_stage(stage, cleanup.status_spec()),
        r.status_spec() == status,
        r.cleanup_spec() == cleanup,
        r.valid(),
{
    probe_result(ProbeKind::FileChooser, stage, status, cleanup)
}

/// The operation status and stage after waiting: success and cancellation
/// complete the lifecycle, anything else stops at `Response`.
pub open spec fn finalize_spec(response: ResponseWait) -> (ProbeStatus, ProbeStage) {
    match response {
        ResponseWait::Outcome(status) => (status, if status == ProbeStatus::Success || status
            == ProbeStatus::UserCancelled {
            ProbeStage::Complete
        } else {
            ProbeStage::Response
        }),
        ResponseWait::UserCancelled => (ProbeStatus::UserCancelled, ProbeStage::Complete),
        ResponseWait::TimedOut => (ProbeStatus::TimedOut, ProbeStage::Response),
    }
}

/// The result after the response wait and the request cleanup.
pub fn finalize(response: ResponseWait, cleanup: CleanupResult) -> (r: ProbeResult)
    requires
        fits(cleanup),
    ensures
        r.probe_spec() == ProbeKind::FileChooser,
        r.status_spec() == finalize_spec(response).0,
        r.stage_spec() == reported_stage(finalize_spec(response).1, cleanup.status_spec()),
        r.cleanup_spec() == cleanup,
        r.valid(),
{
    let (status, stage) = match response {
        ResponseWait::Outcome(status) => {
            let stage = if matches!(status, ProbeStatus::Success | ProbeStatus::UserCancelled) {
                ProbeStage::Complete
            } else {
                ProbeStage::Response
            };
            (status, stage)
        },
        ResponseWait::UserCancelled => (ProbeStatus::UserCancelled, ProbeStage::Complete),
        ResponseWait::TimedOut => (ProbeStatus::TimedOut, ProbeStage::Response),
    };
    result(stage, status, cleanup)
}

/// The result of an `OpenFile` call that produced no usable request, or
/// `None` when the request exists and its response is awaited. A foreign
/// path or a time-out may leave a request that cannot be closed safely, so
/// its cleanup is unverified.
pub fn open_file_outcome(call: OpenFileCall) -> (r: Option<ProbeResult>)
    ensures
        call == (OpenFileCall::Reply { valid_path: true }) <==> r is None,
        r matches Some(p) ==> p.probe_spec() == ProbeKind::FileChooser && p.valid() && match call {
            OpenFileCall::Reply { .. } => p.status_spec() == ProbeStatus::MalformedResponse
                && p.cleanup_spec().status_spec() == CleanupStatus::Unverified && p.stage_spec() == ProbeStage::Cleanup,
            OpenFileCall::Failed { status } => p.status_spec() == status
                && p.cleanup_spec().status_spec() == CleanupStatus::NotRequired && p.stage_spec() == ProbeStage::Request,
            OpenFileCall::TimedOut => p.status_spec() == ProbeStatus::TimedOut
                && p.cleanup_spec().status_spec() == CleanupStatus::Unverified && p.stage_spec() == ProbeStage::Cleanup,
        },
{
    match call {
        OpenFileCall::Reply { valid_path } => if valid_path {
            None
        } else {
            Some(result(ProbeStage::Request, ProbeStatus::MalformedResponse, CleanupResult::unverified()))
        },
        OpenFileCall::Failed { status } => Some(result(ProbeStage::Request, status, CleanupResult::not_required())),
        OpenFileCall::TimedOut => Some(result(ProbeStage::Request, ProbeStatus::TimedOut, CleanupResult::unverified())),
    }
}

/// Cleanup after `Request.Close` on the returned request: an object that is
/// already gone counts as closed.
pub fn close_request_cleanup(call: CloseCall) -> (r: CleanupResult)
    ensures
        fits(r),
        r.status_spec() == (match call {
            CloseCall::Closed | CloseCall::ObjectGone => CleanupStatus::Completed,
            _ => CleanupStatus::Failed,
        }),
        r.status_spec() == CleanupStatus::Failed ==> r.resources_spec() == seq![CleanupResource::Request],
        r.status_spec() == CleanupStatus::Completed ==> r.resources_spec().len() == 0,
{
    let r = crate::probes::portal::request_close_cleanup(call, true);
    r
}

/// Shell exit code: `0` only for a clean success.
pub fn exit_code(result: &ProbeResult) -> (r: u8)
    ensures
        r == (if result.clean_success() { 0u8 } else { 1u8 }),
{
    if result.is_clean_success() {
        0
    } else {
        1
    }
}

pub open spec fn resource_names(s: Seq<CleanupResource>) -> Seq<Seq<char>> {
    s.map_values(|r: CleanupResource| resource_name(r))
}

/// The terminal summary, without any URI, filename or raw portal error.
pub fn render_terminal(result: &ProbeResult) -> (r: String)
    ensures
        r@ == probe_text("PortalDoctor FileChooser probe"@, *result, resource_names(result.cleanup_spec().resources_spec())),
{
    let resources = result.cleanup().failed_resources();
    let mut names: Vec<String> = Vec::new();
    let mut i: usize = 0;
    while i < resources.len()
        invariant
            i <= resources@.len(),
            resources@ == result.cleanup_spec().resources_spec(),
            views(names@) == resource_names(resources@.take(i as int)),
        decreases resources@.len() - i,
    {
        let ghost before = names@;
        let name = cleanup_resource_name(resources[i]).to_owned();
        names.push(name);
        assert(views(names@) =~= views(before).push(name@));
        assert(resources@.take(i + 1) =~= resources@.take(i as int).push(resources@[i as int]));
        assert(resource_names(resources@.take(i + 1)) =~= resource_names(resources@.take(i as int)).push(
            resource_name(resources@[i as int]),
        ));
        i = i + 1;
    }
    assert(resources@.take(i as int) =~= resources@);
    render_probe("PortalDoctor FileChooser probe", result, &names)
}

} // verus!
