//! The explicit `Screenshot` probe: capability negotiation between the v3
//! Window target and GNOME's v2 interactive path, response decoding and the
//! terminal result. The screenshot and its URI are never opened or kept:
//! a response is checked only for the type of its `uri` entry.
use vstd::prelude::*;
use crate::model::environment::{SessionInfo, SessionType};
use crate::model::portal::{PortalBackend, PortalRoute, RouteStatus};
use crate::model::probe::{CleanupResource, CleanupResult, ProbeKind, ProbeResult, ProbeStage, ProbeStatus};
use crate::probes::portal::{
    any_line_with, cleanup_fits, interface_body, interface_section, line_with_both, probe_result, probe_text,
    render_probe, reported_stage, response_status, ResponseKind,
};
use crate::resolver::portal_routes::{normalize_desktops, normalized_desktops};
use crate::text::{concat3, contains_string, eq_str, views};

verus! {

pub const SCREENSHOT_INTERFACE: &'static str = "org.freedesktop.portal.Screenshot";

pub const GNOME_BACKEND_ID: &'static str = "gnome";

pub const GNOME_BACKEND_BUS: &'static str = "org.freedesktop.impl.portal.desktop.gnome";

pub const GNOME_SCREENSHOT_BACKEND_INTERFACE: &'static str = "org.freedesktop.impl.portal.Screenshot";

pub const DBUS_DESTINATION: &'static str = "org.freedesktop.DBus";

pub const DBUS_PATH: &'static str = "/org/freedesktop/DBus";

pub const DBUS_INTERFACE: &'static str = "org.freedesktop.DBus";

/// The `Window` bit of `AvailableTargets` and of the `target` option.
pub const WINDOW_TARGET: u32 = 2;

pub const V2_SCREENSHOT_VERSION: u32 = 2;

pub const MINIMUM_SCREENSHOT_VERSION: u32 = 3;

/// The request shape the probe may use.
#[derive(Debug, Clone, Copy, PartialEq, Eq, Structural)]
pub enum ScreenshotCapability {
    /// GNOME's v2 portal chooses the target in its own interactive UI; the
    /// v3-only `target` option is not sent.
    V2GnomeInteractive,
    /// The v3 contract advertises and is asked for the Window target.
    V3Window,
}

pub open spec fn window_available(targets: u32) -> bool {
    targets & WINDOW_TARGET != 0
}

/// The Window target bit is set; no other target is accepted in its place.
pub fn window_target_is_available(available_targets: u32) -> (r: bool)
    ensures
        r == window_available(available_targets),
{
    available_targets & WINDOW_TARGET != 0
}

pub open spec fn negotiate_spec(
    version: u32,
    has_window_property: bool,
    available_targets: u32,
    trusted_gnome: bool,
) -> Result<ScreenshotCapability, ProbeStatus> {
    if version == V2_SCREENSHOT_VERSION {
        if trusted_gnome {
            Ok(ScreenshotCapability::V2GnomeInteractive)
        } else {
            Err(ProbeStatus::Unsupported)
        }
    } else if version >= MINIMUM_SCREENSHOT_VERSION && has_window_property && window_available(available_targets) {
        Ok(ScreenshotCapability::V3Window)
    } else {
        Err(ProbeStatus::Unsupported)
    }
}

/// Version 2 is usable only through a trusted GNOME provider; version 3 and
/// later only with an advertised Window target.
pub fn negotiate_capability(
    version: u32,
    has_window_property: bool,
    available_targets: u32,
    trusted_gnome: bool,
) -> (r: Result<ScreenshotCapability, ProbeStatus>)
    ensures
        r == negotiate_spec(version, has_window_property, available_targets, trusted_gnome),
{
    if version == V2_SCREENSHOT_VERSION {
        return if trusted_gnome {
            Ok(ScreenshotCapability::V2GnomeInteractive)
        } else {
            Err(ProbeStatus::Unsupported)
        };
    }
    if version >= MINIMUM_SCREENSHOT_VERSION && has_window_property && window_target_is_available(available_targets) {
        return Ok(ScreenshotCapability::V3Window);
    }
    Err(ProbeStatus::Unsupported)
}

/// Some line of an interface section declares `<member ... name="name"`.
pub open spec fn member_present(interface: Seq<char>, member: Seq<char>, name: Seq<char>) -> bool {
    line_with_both(interface, "<"@ + member + " "@, "name=\""@ + name + "\""@)
}

pub fn xml_member_present(interface: &str, member: &str, name: &str) -> (r: bool)
    ensures
        r == member_present(interface@, member@, name@),
{
    let tag = concat3("<", member, " ");
    let quoted = concat3("name=\"", name, "\"");
    any_line_with(interface, tag.as_str(), quoted.as_str())
}

pub open spec fn screenshot_section(xml: Seq<char>) -> Option<Seq<char>> {
    interface_body(xml, "<interface name=\"org.freedesktop.portal.Screenshot\""@)
}

/// The Screenshot interface declares the `Screenshot` method and the
/// `version` property.
pub open spec fn supports_screenshot(xml: Seq<char>) -> bool {
    match screenshot_section(xml) {
        Some(body) => member_present(body, "method"@, "Screenshot"@) && member_present(body, "property"@, "version"@),
        None => false,
    }
}

pub fn introspection_supports_screenshot(xml: &str) -> (r: bool)
    ensures
        r == supports_screenshot(xml@),
{
    match interface_section(xml, "<interface name=\"org.freedesktop.portal.Screenshot\"") {
        Some(body) => xml_member_present(body.as_str(), "method", "Screenshot") && xml_member_present(
            body.as_str(),
            "property",
            "version",
        ),
        None => false,
    }
}

/// The Screenshot interface declares the `AvailableTargets` property.
pub open spec fn supports_window_targets(xml: Seq<char>) -> bool {
    match screenshot_section(xml) {
        Some(body) => member_present(body, "property"@, "AvailableTargets"@),
        None => false,
    }
}

pub fn introspection_supports_window_targets(xml: &str) -> (r: bool)
    ensures
        r == supports_window_targets(xml@),
{
    match interface_section(xml, "<interface name=\"org.freedesktop.portal.Screenshot\"") {
        Some(body) => xml_member_present(body.as_str(), "property", "AvailableTargets"),
        None => false,
    }
}

pub open spec fn warning_spec(capability: ScreenshotCapability) -> Seq<char> {
    match capability {
        ScreenshotCapability::V3Window => "Warning: the portal may ask you to choose a window and may create a screenshot artifact. PortalDoctor will not open, read, copy, modify, delete, or print the screenshot or its URI."@,
        ScreenshotCapability::V2GnomeInteractive => "Warning: the GNOME portal UI will choose the screenshot target; it may include a screen, window, or area and may create a screenshot artifact. PortalDoctor will not open, read, copy, modify, delete, or print the screenshot or its URI."@,
    }
}

/// The warning shown before the request: what the portal may capture and
/// that the artifact is never read.
pub fn warning_text(capability: ScreenshotCapability) -> (r: &'static str)
    ensures
        r@ == warning_spec(capability),
{
    match capability {
        ScreenshotCapability::V3Window => "Warning: the portal may ask you to choose a window and may create a screenshot artifact. PortalDoctor will not open, read, copy, modify, delete, or print the screenshot or its URI.",
        ScreenshotCapability::V2GnomeInteractive => "Warning: the GNOME portal UI will choose the screenshot target; it may include a screen, window, or area and may create a screenshot artifact. PortalDoctor will not open, read, copy, modify, delete, or print the screenshot or its URI.",
    }
}

/// A Wayland session with a display whose desktop list names GNOME.
pub open spec fn wayland_gnome(session: SessionInfo) -> bool {
    &&& session.session_type == Some(SessionType::Wayland)
    &&& session.wayland_display is Some
    &&& session.current_desktop matches Some(d) && normalized_desktops(d@).contains("gnome"@)
}

/// Whether the session itself is a GNOME Wayland session.
pub fn wayland_gnome_session(session: &SessionInfo) -> (r: bool)
    ensures
        r == wayland_gnome(*session),
{
    if session.session_type != Some(SessionType::Wayland) || session.wayland_display.is_none() {
        return false;
    }
    match &session.current_desktop {
        Some(d) => {
            let desktops = normalize_desktops(d.as_str());
            contains_string(&desktops, GNOME_BACKEND_ID)
        },
        None => false,
    }
}

/// The GNOME backend is installed with the Screenshot backend interface,
/// and the Screenshot route selects GNOME alone.
pub open spec fn gnome_route(routes: Seq<PortalRoute>, backends: Seq<PortalBackend>) -> bool {
    &&& exists|i: int| 0 <= i < backends.len() && #[trigger] backends[i].id@ == GNOME_BACKEND_ID@
        && backends[i].dbus_name@ == GNOME_BACKEND_BUS@
        && views(backends[i].interfaces@).contains(GNOME_SCREENSHOT_BACKEND_INTERFACE@)
    &&& exists|j: int| 0 <= j < routes.len() && #[trigger] routes[j].interface@ == GNOME_SCREENSHOT_BACKEND_INTERFACE@
        && routes[j].status == RouteStatus::Selected
        && views(routes[j].selected_candidates@) == seq![GNOME_BACKEND_ID@]
}

fn gnome_backend_present(backends: &Vec<PortalBackend>) -> (r: bool)
    ensures
        r == exists|i: int| 0 <= i < backends@.len() && #[trigger] backends@[i].id@ == GNOME_BACKEND_ID@
            && backends@[i].dbus_name@ == GNOME_BACKEND_BUS@
            && views(backends@[i].interfaces@).contains(GNOME_SCREENSHOT_BACKEND_INTERFACE@),
{
    let mut i: usize = 0;
    while i < backends.len()
        invariant
            i <= backends@.len(),
            forall|k: int| 0 <= k < i ==> !(#[trigger] backends@[k].id@ == GNOME_BACKEND_ID@
                && backends@[k].dbus_name@ == GNOME_BACKEND_BUS@
                && views(backends@[k].interfaces@).contains(GNOME_SCREENSHOT_BACKEND_INTERFACE@)),
        decreases backends@.len() - i,
    {
        let b = &backends[i];
        if eq_str(b.id.as_str(), GNOME_BACKEND_ID) && eq_str(b.dbus_name.as_str(), GNOME_BACKEND_BUS)
            && contains_string(&b.interfaces, GNOME_SCREENSHOT_BACKEND_INTERFACE) {
            return true;
        }
        i = i + 1;
    }
    false
}

fn selects_only_gnome(candidates: &Vec<String>) -> (r: bool)
    ensures
        r == (views(candidates@) == seq![GNOME_BACKEND_ID@]),
{
    if candidates.len() != 1 {
        proof {
            if views(candidates@) == seq![GNOME_BACKEND_ID@] {
                assert(views(candidates@).len() == 1);
            }
        }
        return false;
    }
    let r = eq_str(candidates[0].as_str(), GNOME_BACKEND_ID);
    proof {
        if r {
            assert(views(candidates@) =~= seq![GNOME_BACKEND_ID@]);
        } else {
            assert(views(candidates@)[0] != seq![GNOME_BACKEND_ID@][0]);
        }
    }
    r
}

/// Whether the resolved Screenshot route goes to the installed GNOME
/// provider alone.
pub fn screenshot_route_is_gnome(routes: &Vec<PortalRoute>, backends: &Vec<PortalBackend>) -> (r: bool)
    ensures
        r == gnome_route(routes@, backends@),
{
    if !gnome_backend_present(backends) {
        return false;
    }
    let mut j: usize = 0;
    while j < routes.len()
        invariant
            j <= routes@.len(),
            exists|i: int| 0 <= i < backends@.len() && #[trigger] backends@[i].id@ == GNOME_BACKEND_ID@
                && backends@[i].dbus_name@ == GNOME_BACKEND_BUS@
                && views(backends@[i].interfaces@).contains(GNOME_SCREENSHOT_BACKEND_INTERFACE@),
            forall|k: int| 0 <= k < j ==> !(#[trigger] routes@[k].interface@ == GNOME_SCREENSHOT_BACKEND_INTERFACE@
                && routes@[k].status == RouteStatus::Selected
                && views(routes@[k].selected_candidates@) == seq![GNOME_BACKEND_ID@]),
        decreases routes@.len() - j,
    {
        let route = &routes[j];
        if eq_str(route.interface.as_str(), GNOME_SCREENSHOT_BACKEND_INTERFACE) && route.status
            == RouteStatus::Selected && selects_only_gnome(&route.selected_candidates) {
            assert(routes@[j as int].interface@ == GNOME_SCREENSHOT_BACKEND_INTERFACE@);
            return true;
        }
        j = j + 1;
    }
    false
}

/// The `uri` entry is a D-Bus string: its signature is `s`.
pub fn has_uri_string(uri_signature: Option<&str>) -> (r: bool)
    ensures
        r == (uri_signature is Some && uri_signature->0@ == "s"@),
{
    match uri_signature {
        Some(sig) => eq_str(sig, "s"),
        None => false,
    }
}

/// `0` with a string URI is a success, `1` a cancellation, `2` a portal
/// failure; anything else, `0` without a string URI included, is malformed.
pub open spec fn decode_spec(code: u32, has_uri: bool) -> ProbeStatus {
    if code == 0 && has_uri {
        ProbeStatus::Success
    } else if code == 1 {
        ProbeStatus::UserCancelled
    } else if code == 2 {
        ProbeStatus::InfrastructureFailure
    } else {
        ProbeStatus::MalformedResponse
    }
}

pub fn decode_response(code: u32, uri_signature: Option<&str>) -> (r: ProbeStatus)
    ensures
        r == decode_spec(code, uri_signature is Some && uri_signature->0@ == "s"@),
{
    if code == 0 && has_uri_string(uri_signature) {
        ProbeStatus::Success
    } else if code == 1 {
        ProbeStatus::UserCancelled
    } else if code == 2 {
        ProbeStatus::InfrastructureFailure
    } else {
        ProbeStatus::MalformedResponse
    }
}

/// A cleanup this probe may report: it owns a request at most.
pub open spec fn fits(cleanup: CleanupResult) -> bool {
    cleanup_fits(ProbeKind::Screenshot, cleanup)
}

/// The terminal `Screenshot` result.
pub fn result(stage: ProbeStage, status: ProbeStatus, cleanup: CleanupResult) -> (r: ProbeResult)
    requires
        stage.valid_for(ProbeKind::Screenshot),
        fits(cleanup),
    ensures
        r.probe_spec() == ProbeKind::Screenshot,
        r.stage_spec() == reported_stage(stage, cleanup.status_spec()),
        r.status_spec() == status,
        r.cleanup_spec() == cleanup,
        r.valid(),
{
    probe_result(ProbeKind::Screenshot, stage, status, cleanup)
}

/// Operation status and stage after waiting; an outcome is decoded by its
/// code and the signature of its `uri` entry.
pub open spec fn finalize_spec(response: ResponseKind, has_uri: bool) -> (ProbeStatus, ProbeStage) {
    match response {
        ResponseKind::Outcome { code } => {
            let status = decode_spec(code, has_uri);
            (status, if status == ProbeStatus::Success || status == ProbeStatus::UserCancelled {
                ProbeStage::Complete
            } else {
                ProbeStage::Response
            })
        },
        ResponseKind::UserCancelled => (ProbeStatus::UserCancelled, ProbeStage::Complete),
        _ => (response_status(response), ProbeStage::Response),
    }
}

pub fn finalize(response: ResponseKind, uri_signature: Option<&str>, cleanup: CleanupResult) -> (r: ProbeResult)
    requires
        fits(cleanup),
    ensures
        r.probe_spec() == ProbeKind::Screenshot,
        r.status_spec() == finalize_spec(response, uri_signature is Some && uri_signature->0@ == "s"@).0,
        r.stage_spec() == reported_stage(
            finalize_spec(response, uri_signature is Some && uri_signature->0@ == "s"@).1,
            cleanup.status_spec(),
        ),
        r.cleanup_spec() == cleanup,
        r.valid(),
{
    let (status, stage) = match response {
        ResponseKind::Outcome { code } => {
            let status = decode_response(code, uri_signature);
            let stage = if matches!(status, ProbeStatus::Success | ProbeStatus::UserCancelled) {
                ProbeStage::Complete
            } else {
                ProbeStage::Response
            };
            (status, stage)
        },
        ResponseKind::UserCancelled => (ProbeStatus::UserCancelled, ProbeStage::Complete),
        ResponseKind::TimedOut => (ProbeStatus::TimedOut, ProbeStage::Response),
        ResponseKind::InfrastructureFailure => (ProbeStatus::InfrastructureFailure, ProbeStage::Response),
        ResponseKind::MalformedResponse => (ProbeStatus::MalformedResponse, ProbeStage::Response),
    };
    result(stage, status, cleanup)
}

/// Shell exit code: `0` only for a clean success.
pub fn exit_code(result: &ProbeResult) -> (r: u8)
    ensures
        r == (if result.clean_success() { 0u8 } else { 1u8 }),
{
    if result.is_clean_success() {
        0
    } else {
        1
    }
}

/// Every listed resource is named `request`, the only one this probe owns.
pub open spec fn request_names(n: nat) -> Seq<Seq<char>> {
    Seq::new(n, |i: int| "request"@)
}

/// The terminal summary, without the URI, path, filename or raw response.
pub fn render_terminal(result: &ProbeResult) -> (r: String)
    ensures
        r@ == probe_text(
            "PortalDoctor Screenshot probe"@,
            *result,
            request_names(result.cleanup_spec().resources_spec().len()),
        ),
{
    let resources = result.cleanup().failed_resources();
    let mut names: Vec<String> = Vec::new();
    let mut i: usize = 0;
    while i < resources.len()
        invariant
            i <= resources@.len(),
            views(names@) == request_names(i as nat),
        decreases resources@.len() - i,
    {
        let ghost before = names@;
        let name = "request".to_owned();
        names.push(name);
        assert(views(names@) =~= views(before).push(name@));
        i = i + 1;
        assert(views(names@) =~= request_names(i as nat));
    }
    render_probe("PortalDoctor Screenshot probe", result, &names)
}

/// The Window target counts as advertised exactly when bit 2 of the
/// advertised mask is set, whatever the other target bits say; so a
/// provider of version 3 or later with the target property negotiates the
/// Window capability exactly then, while version 2 goes by the trusted
/// GNOME provider alone.
pub proof fn law_window_target_is_bit_two(targets: u32, version: u32, trusted_gnome: bool)
    ensures
        window_available(targets) <==> (targets & 2u32) != 0u32,
        version >= 3 ==> negotiate_spec(version, true, targets, trusted_gnome) == if (targets & 2u32) != 0u32 {
            Ok::<ScreenshotCapability, ProbeStatus>(ScreenshotCapability::V3Window)
        } else {
            Err::<ScreenshotCapability, ProbeStatus>(ProbeStatus::Unsupported)
        },
        negotiate_spec(2, true, targets, trusted_gnome) == if trusted_gnome {
            Ok::<ScreenshotCapability, ProbeStatus>(ScreenshotCapability::V2GnomeInteractive)
        } else {
            Err::<ScreenshotCapability, ProbeStatus>(ProbeStatus::Unsupported)
        },
{
}

} // verus!
