use portaldoctor::rules::compatibility::Xdp006;
use portaldoctor::model::dbus::DbusInfo;
use portaldoctor::model::environment::EnvVars;
use portaldoctor::model::finding::Finding;
use portaldoctor::model::environment::{SessionInfo, SessionType};
use portaldoctor::model::portal::{PortalConfigCandidate, PortalConfigInfo};
use portaldoctor::model::portal_frontend::{
    PORTAL_FRONTEND_COMPONENT, PortalFrontendInfo, SemanticVersion, VersionEvidenceSource,
};
use portaldoctor::model::section::Section;
use portaldoctor::model::snapshot::Snapshot;
use portaldoctor::model::status::CollectorState;
use portaldoctor::rules::engine::DiagnosticRule;

const SETTINGS: &str = "org.freedesktop.impl.portal.Settings";

/// The user's Niri configuration: Settings routed to GTK alone.
const NIRI_SETTINGS_OVERRIDE_CONF: &str =
    "[preferred]\ndefault=gnome;gtk\norg.freedesktop.impl.portal.Settings=gtk\n";
/// The distribution's Niri configuration, without a Settings override.
const NIRI_PORTALS_CONF: &str = "[preferred]\ndefault=gnome;gtk\n";
/// A lower-precedence generic configuration that prefers GNOME first.
const GENERIC_GNOME_GTK_PORTALS_CONF: &str = "[preferred]\ndefault=gnome;gtk\n";
const GNOME_PORTAL: &str = "[portal]\nDBusName=org.freedesktop.impl.portal.desktop.gnome\nInterfaces=org.freedesktop.impl.portal.Settings;org.freedesktop.impl.portal.Screenshot;org.freedesktop.impl.portal.ScreenCast;\nUseIn=gnome\n";
const NIRI_GTK_PORTAL: &str = "[portal]\nDBusName=org.freedesktop.impl.portal.desktop.gtk\nInterfaces=org.freedesktop.impl.portal.Settings;org.freedesktop.impl.portal.FileChooser;\n";

fn snapshot(
    version: Option<SemanticVersion>,
    desktop: &str,
    settings_override: bool,
    gnome_settings: bool,
    gtk_settings: bool,
) -> Snapshot {
    let mut process = EnvVars::new();
    process.insert("XDG_CURRENT_DESKTOP", desktop);
    process.insert("XDG_SESSION_DESKTOP", "niri");
    process.insert("XDG_SESSION_TYPE", "wayland");
    process.insert("WAYLAND_DISPLAY", "wayland-1");
    let session = SessionInfo {
        current_desktop: Some(desktop.to_owned()),
        session_desktop: Some("niri".to_owned()),
        session_type: Some(SessionType::Wayland),
        session_type_raw: Some("wayland".to_owned()),
        wayland_display: Some("wayland-1".to_owned()),
        display: None,
    };
    let config_text = if settings_override {
        NIRI_SETTINGS_OVERRIDE_CONF
    } else {
        NIRI_PORTALS_CONF
    };
    let selected_file = if settings_override {
        "/home/tester/.config/xdg-desktop-portal/niri-portals.conf"
    } else {
        "/usr/share/xdg-desktop-portal/niri-portals.conf"
    };
    let (preferences, parse_errors) =
        portaldoctor::collectors::portal_config::parse_config(config_text, selected_file, 0);
    let config = PortalConfigInfo {
        candidate_files: vec![selected_file.to_owned()],
        selected_file: Some(selected_file.to_owned()),
        preferences,
        parse_errors,
        lower_priority_candidates: Vec::new(),
    };
    let mut gnome = portaldoctor::collectors::portal_files::parse_portal_file(
        GNOME_PORTAL,
        "/fixture/gnome.portal",
        "gnome".to_owned(),
    );
    let mut gtk = portaldoctor::collectors::portal_files::parse_portal_file(
        NIRI_GTK_PORTAL,
        "/fixture/gtk.portal",
        "gtk".to_owned(),
    );
    if !gnome_settings {
        gnome.interfaces.retain(|i| i != SETTINGS);
    }
    if !gtk_settings {
        gtk.interfaces.retain(|i| i != SETTINGS);
    }
    let backends = vec![gnome, gtk];
    let desktops = portaldoctor::resolver::portal_routes::normalize_desktops(desktop);
    let routes = portaldoctor::resolver::portal_routes::resolve_routes(&desktops, &config, &backends);

    let mut result = Snapshot::new(0);
    result.session = Section::available(session);
    result.environment = Section::available(portaldoctor::collectors::environment::environment_info(
        process, None, None,
    ));
    result.portal_config = Section::available(config);
    result.portal_backends = Section::available(backends);
    result.portal_routes = Section::available(routes);
    result.dbus = Section::available(DbusInfo {
        connected: true,
        checks: Vec::new(),
    });
    if let Some(version) = version {
        result.portal_frontend = Section::available(PortalFrontendInfo::new(
            &version.to_string(),
            version,
            VersionEvidenceSource::DpkgQuery {
                package: PORTAL_FRONTEND_COMPONENT.to_owned(),
            },
        ));
    }
    result
}

fn ids(snapshot: &Snapshot) -> Vec<String> {
    Xdp006
        .evaluate(snapshot)
        .into_iter()
        .map(|finding| finding.id)
        .collect()
}

fn with_lower_candidate(mut snapshot: Snapshot, text: &str) -> Snapshot {
    let (preferences, parse_errors) = portaldoctor::collectors::portal_config::parse_config(
        text,
        "/usr/share/xdg-desktop-portal/portals.conf",
        1,
    );
    snapshot
        .portal_config
        .value
        .as_mut()
        .expect("portal config fixture")
        .lower_priority_candidates = vec![PortalConfigCandidate {
        path: "/usr/share/xdg-desktop-portal/portals.conf".to_owned(),
        source_priority: 1,
        status: if parse_errors.is_empty() {
            CollectorState::Available
        } else {
            CollectorState::ParseError
        },
        preferences,
        parse_errors,
    }];
    snapshot
}

#[test]
fn exact_affected_version_and_effective_override_emit_one_risk() {
    let findings = Xdp006.evaluate(&with_lower_candidate(
        snapshot(
            Some(SemanticVersion::new(1, 22, 0)),
            "niri",
            true,
            true,
            true,
        ),
        GENERIC_GNOME_GTK_PORTALS_CONF,
    ));
    assert_contract(&findings);
    assert_eq!(
        ids(&with_lower_candidate(
            snapshot(
                Some(SemanticVersion::new(1, 22, 0)),
                "niri",
                true,
                true,
                true
            ),
            GENERIC_GNOME_GTK_PORTALS_CONF,
        )),
        ["XDP006"]
    );
    assert_eq!(
        findings[0].confidence,
        portaldoctor::model::finding::Confidence::Medium
    );
    assert!(findings[0].summary.contains("1.22.0"));
    assert!(!findings[0].summary.contains("duplicate"));
}

#[test]
fn lower_candidate_is_required_for_the_regression_risk() {
    assert!(
        ids(&snapshot(
            Some(SemanticVersion::new(1, 22, 0)),
            "niri",
            true,
            true,
            true,
        ))
        .is_empty()
    );
}

#[test]
fn lower_candidate_must_make_gnome_a_settings_candidate() {
    let no_gnome = with_lower_candidate(
        snapshot(
            Some(SemanticVersion::new(1, 22, 0)),
            "niri",
            true,
            true,
            true,
        ),
        "[preferred]\norg.freedesktop.impl.portal.Settings=gtk;\n",
    );
    assert!(ids(&no_gnome).is_empty());

    let malformed = with_lower_candidate(
        snapshot(
            Some(SemanticVersion::new(1, 22, 0)),
            "niri",
            true,
            true,
            true,
        ),
        "[preferred]\ndefault=gnome;gtk\nbroken-line\n",
    );
    assert!(ids(&malformed).is_empty());
}

#[test]
fn unreadable_lower_candidate_is_silent() {
    let mut snapshot = snapshot(
        Some(SemanticVersion::new(1, 22, 0)),
        "niri",
        true,
        true,
        true,
    );
    snapshot
        .portal_config
        .value
        .as_mut()
        .expect("portal config fixture")
        .lower_priority_candidates = vec![PortalConfigCandidate {
        path: "/usr/share/xdg-desktop-portal/portals.conf".to_owned(),
        source_priority: 1,
        status: CollectorState::Unavailable,
        preferences: Vec::new(),
        parse_errors: vec!["cannot read lower-priority candidate".to_owned()],
    }];
    assert!(ids(&snapshot).is_empty());
}

#[test]
fn absent_or_uncomparable_version_is_silent() {
    assert!(ids(&snapshot(None, "niri", true, true, true)).is_empty());
    let mut malformed = snapshot(
        Some(SemanticVersion::new(1, 22, 0)),
        "niri",
        true,
        true,
        true,
    );
    malformed.portal_frontend = Section::parse_error("not comparable");
    assert!(ids(&malformed).is_empty());
}

#[test]
fn only_exact_affected_version_matches() {
    for version in [
        SemanticVersion::new(1, 21, 1),
        SemanticVersion::new(1, 23, 0),
    ] {
        assert!(ids(&snapshot(Some(version), "niri", true, true, true)).is_empty());
    }
}

#[test]
fn desktop_and_configuration_negatives_are_silent() {
    for desktop in ["GNOME", "KDE", "Sway", "Hyprland", "niri:GNOME"] {
        assert!(
            ids(&snapshot(
                Some(SemanticVersion::new(1, 22, 0)),
                desktop,
                true,
                true,
                true,
            ))
            .is_empty()
        );
    }
    assert!(
        ids(&snapshot(
            Some(SemanticVersion::new(1, 22, 0)),
            "niri",
            false,
            true,
            true
        ))
        .is_empty()
    );
}

#[test]
fn descriptor_and_route_negatives_are_silent() {
    assert!(
        ids(&snapshot(
            Some(SemanticVersion::new(1, 22, 0)),
            "niri",
            true,
            false,
            true
        ))
        .is_empty()
    );
    assert!(
        ids(&snapshot(
            Some(SemanticVersion::new(1, 22, 0)),
            "niri",
            true,
            true,
            false
        ))
        .is_empty()
    );
}

/// Every finding carries all structured fields with non-empty content.
fn assert_contract(findings: &[Finding]) {
    for finding in findings {
        assert!(!finding.id.is_empty());
        assert!(!finding.title.is_empty(), "{}: empty title", finding.id);
        assert!(!finding.summary.is_empty(), "{}: empty summary", finding.id);
        assert!(!finding.explanation.is_empty(), "{}: empty explanation", finding.id);
        assert!(!finding.evidence.is_empty(), "{}: no evidence", finding.id);
        assert!(finding.impact.as_deref().map_or(true, |impact| !impact.is_empty()), "{}: empty impact", finding.id);
        assert!(!finding.recommendation.is_empty(), "{}: no recommendation", finding.id);
        assert!(finding.recommendation.iter().all(|step| !step.is_empty()), "{}: empty step", finding.id);
        assert!(!finding.source_component.is_empty(), "{}: empty source_component", finding.id);
    }
}
