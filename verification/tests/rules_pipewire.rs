use portaldoctor::rules::pipewire::{Pw001, Pw002, Pw003, Sc001, Sc002};
use portaldoctor::model::environment::{SessionInfo, SessionType};
use portaldoctor::model::finding::Finding;
use portaldoctor::model::pipewire::{PipeWireInfo, WirePlumberInfo};
use portaldoctor::model::portal::{PortalBackend, PortalRoute, RouteStatus};
use portaldoctor::model::section::Section;
use portaldoctor::model::snapshot::Snapshot;
use portaldoctor::model::status::CollectorState;
use portaldoctor::rules::engine::DiagnosticRule;

const SCREENCAST: &str = "org.freedesktop.impl.portal.ScreenCast";

fn pipewire_section(status: CollectorState) -> Section<PipeWireInfo> {
    match status {
        CollectorState::Available => Section::available(PipeWireInfo {
            model_version: 1,
            version: Some("1.6.2".to_owned()),
            object_count: 1,
            node_count: 0,
            link_count: 0,
            portal_client_count: 0,
            screen_cast_source_count: 0,
            nodes: Vec::new(),
            links: Vec::new(),
        }),
        CollectorState::Unsupported => Section::unsupported("pw-dump is not installed"),
        CollectorState::TimedOut => Section::timed_out("pw-dump timed out"),
        CollectorState::PermissionDenied => Section::permission_denied("permission denied"),
        CollectorState::ParseError => Section::parse_error("invalid JSON"),
        CollectorState::Unavailable => Section::unavailable("endpoint unavailable"),
    }
}

fn wireplumber_section(status: CollectorState) -> Section<WirePlumberInfo> {
    match status {
        CollectorState::Available => Section::available(WirePlumberInfo {
            model_version: 1,
            pipewire_version: Some("1.6.2".to_owned()),
            wireplumber_client_count: 1,
        }),
        CollectorState::Unsupported => Section::unsupported("wpctl is not installed"),
        CollectorState::TimedOut => Section::timed_out("wpctl timed out"),
        CollectorState::PermissionDenied => Section::permission_denied("permission denied"),
        CollectorState::ParseError => Section::parse_error("malformed status"),
        CollectorState::Unavailable => Section::unavailable("WirePlumber unavailable"),
    }
}

fn route(status: RouteStatus) -> PortalRoute {
    PortalRoute {
        interface: SCREENCAST.to_owned(),
        requested_candidates: vec!["gnome".to_owned()],
        available_candidates: if status == RouteStatus::Selected {
            vec!["gnome".to_owned()]
        } else {
            Vec::new()
        },
        selected_candidates: if status == RouteStatus::Selected {
            vec!["gnome".to_owned()]
        } else {
            Vec::new()
        },
        evidence: Vec::new(),
        status,
    }
}

fn snapshot(
    pipewire_status: CollectorState,
    wireplumber_status: CollectorState,
    route_status: RouteStatus,
) -> Snapshot {
    let mut snapshot = Snapshot::new(0);
    snapshot.pipewire = pipewire_section(pipewire_status);
    snapshot.wireplumber = wireplumber_section(wireplumber_status);
    snapshot.session = Section::available(SessionInfo {
        current_desktop: Some("GNOME".to_owned()),
        session_desktop: Some("GNOME".to_owned()),
        session_type: Some(SessionType::Wayland),
        session_type_raw: Some("wayland".to_owned()),
        wayland_display: Some("wayland-0".to_owned()),
        display: Some(":0".to_owned()),
    });
    snapshot.portal_routes = Section::available(vec![route(route_status)]);
    snapshot
}

fn evaluated(findings: Vec<Finding>) -> Vec<Finding> {
    assert_contract(&findings);
    findings
}

fn ids(findings: &[Finding]) -> Vec<&str> {
    findings.iter().map(|finding| finding.id.as_str()).collect()
}

#[test]
fn unavailable_pipewire_tool_fires_pw001_not_pw003() {
    let snapshot = snapshot(
        CollectorState::Unsupported,
        CollectorState::Available,
        RouteStatus::Selected,
    );
    assert_eq!(ids(&evaluated(Pw001.evaluate(&snapshot))), ["PW001"]);
    assert!(evaluated(Pw003.evaluate(&snapshot)).is_empty());
}

#[test]
fn failed_pipewire_query_fires_pw003() {
    let snapshot = snapshot(
        CollectorState::TimedOut,
        CollectorState::Available,
        RouteStatus::Selected,
    );
    assert!(evaluated(Pw001.evaluate(&snapshot)).is_empty());
    assert_eq!(ids(&evaluated(Pw003.evaluate(&snapshot))), ["PW003"]);
}

#[test]
fn unavailable_wireplumber_fires_pw002() {
    let snapshot = snapshot(
        CollectorState::Available,
        CollectorState::Unavailable,
        RouteStatus::Selected,
    );
    assert_eq!(ids(&evaluated(Pw002.evaluate(&snapshot))), ["PW002"]);
}

#[test]
fn missing_screencast_route_fires_sc001() {
    let snapshot = snapshot(
        CollectorState::Available,
        CollectorState::Available,
        RouteStatus::NoProvider,
    );
    assert_eq!(ids(&evaluated(Sc001.evaluate(&snapshot))), ["SC001"]);
    assert!(evaluated(Sc002.evaluate(&snapshot)).is_empty());
}

#[test]
fn missing_desktop_context_does_not_create_sc001() {
    let mut snapshot = snapshot(
        CollectorState::Available,
        CollectorState::Available,
        RouteStatus::NoProvider,
    );
    snapshot.session = Section::available(SessionInfo {
        current_desktop: None,
        session_desktop: None,
        session_type: Some(SessionType::Wayland),
        session_type_raw: Some("wayland".to_owned()),
        wayland_display: Some("wayland-0".to_owned()),
        display: Some(":0".to_owned()),
    });
    assert!(evaluated(Sc001.evaluate(&snapshot)).is_empty());
}

#[test]
fn backend_inventory_without_screencast_interface_fires_sc001() {
    let mut snapshot = snapshot(
        CollectorState::Available,
        CollectorState::Available,
        RouteStatus::Selected,
    );
    snapshot.portal_routes = Section::available(Vec::new());
    snapshot.portal_backends = Section::available(vec![PortalBackend {
        id: "fake".to_owned(),
        descriptor_path: "/usr/share/xdg-desktop-portal/portals/fake.portal".to_owned(),
        duplicate_descriptors: Vec::new(),
        dbus_name: "org.example.portal.desktop.fake".to_owned(),
        interfaces: ["org.freedesktop.impl.portal.Screenshot".to_owned()]
            .into_iter()
            .collect(),
        legacy_use_in: Vec::new(),
    }]);
    assert_eq!(ids(&evaluated(Sc001.evaluate(&snapshot))), ["SC001"]);
}

#[test]
fn empty_backend_inventory_does_not_duplicate_xdp003() {
    let mut snapshot = snapshot(
        CollectorState::Available,
        CollectorState::Available,
        RouteStatus::Selected,
    );
    snapshot.portal_routes = Section::available(Vec::new());
    snapshot.portal_backends = Section::available(Vec::new());
    assert!(evaluated(Sc001.evaluate(&snapshot)).is_empty());
}

#[test]
fn selected_route_with_missing_media_fires_sc002() {
    let snapshot = snapshot(
        CollectorState::Unavailable,
        CollectorState::TimedOut,
        RouteStatus::Selected,
    );
    let findings = evaluated(Sc002.evaluate(&snapshot));
    assert_eq!(ids(&findings), ["SC002"]);
    assert_eq!(findings[0].evidence.len(), 3);
}

#[test]
fn healthy_route_and_media_stack_are_silent() {
    let snapshot = snapshot(
        CollectorState::Available,
        CollectorState::Available,
        RouteStatus::Selected,
    );
    assert!(evaluated(Pw001.evaluate(&snapshot)).is_empty());
    assert!(evaluated(Pw002.evaluate(&snapshot)).is_empty());
    assert!(evaluated(Pw003.evaluate(&snapshot)).is_empty());
    assert!(evaluated(Sc001.evaluate(&snapshot)).is_empty());
    assert!(evaluated(Sc002.evaluate(&snapshot)).is_empty());
}

/// Every finding carries all structured fields with non-empty content.
fn assert_contract(findings: &[Finding]) {
    for finding in findings {
        assert!(!finding.id.is_empty());
        assert!(!finding.title.is_empty(), "{}: empty title", finding.id);
        assert!(!finding.summary.is_empty(), "{}: empty summary", finding.id);
        assert!(!finding.explanation.is_empty(), "{}: empty explanation", finding.id);
        assert!(!finding.evidence.is_empty(), "{}: no evidence", finding.id);
        assert!(finding.impact.as_deref().map_or(true, |impact| !impact.is_empty()), "{}: empty impact", finding.id);
        assert!(!finding.recommendation.is_empty(), "{}: no recommendation", finding.id);
        assert!(finding.recommendation.iter().all(|step| !step.is_empty()), "{}: empty step", finding.id);
        assert!(!finding.source_component.is_empty(), "{}: empty source_component", finding.id);
    }
}

#[test]
fn pw001_finding_carries_its_documented_texts() {
    let snapshot = snapshot(
        CollectorState::Unsupported,
        CollectorState::Available,
        RouteStatus::Selected,
    );
    let findings = evaluated(Pw001.evaluate(&snapshot));
    assert_eq!(findings.len(), 1);
    let finding = &findings[0];
    assert_eq!(finding.title, "PipeWire is unavailable");
    assert_eq!(
        finding.summary,
        "PipeWire state could not be collected: pw-dump is not installed"
    );
    assert_eq!(
        finding.explanation,
        "ScreenCast needs a reachable PipeWire session after the portal backend is selected. A missing `pw-dump` tool or an unavailable PipeWire endpoint prevents the media path from being verified."
    );
    assert_eq!(
        finding.impact.as_deref(),
        Some("ScreenCast readiness cannot be confirmed and capture may fail before a stream is created.")
    );
    assert_eq!(
        finding.recommendation,
        ["Install the package that provides `pw-dump`, then verify that the user PipeWire session is running."]
    );
    assert_eq!(finding.source_component, "pipewire");
}
