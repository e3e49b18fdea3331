use std::time::{SystemTime, UNIX_EPOCH};

use portaldoctor::collectors::environment::{environment_info, session_info};
use portaldoctor::model::environment::EnvVars;
use portaldoctor::model::finding::Finding;
use portaldoctor::model::section::Section;
use portaldoctor::model::snapshot::Snapshot;
use portaldoctor::rules::engine::{evaluate, DiagnosticRule};
use portaldoctor::rules::environment::{Env001, Env002, Env003, Env004};

/// Every finding carries all structured fields with non-empty content.
fn assert_contract(findings: &[Finding]) {
    for finding in findings {
        assert!(!finding.id.is_empty());
        assert!(!finding.title.is_empty(), "{}: empty title", finding.id);
        assert!(!finding.summary.is_empty(), "{}: empty summary", finding.id);
        assert!(!finding.explanation.is_empty(), "{}: empty explanation", finding.id);
        assert!(!finding.evidence.is_empty(), "{}: no evidence", finding.id);
        assert!(finding.impact.as_deref().map_or(true, |impact| !impact.is_empty()), "{}: empty impact", finding.id);
        assert!(!finding.recommendation.is_empty(), "{}: no recommendation", finding.id);
        assert!(finding.recommendation.iter().all(|step| !step.is_empty()), "{}: empty step", finding.id);
        assert!(!finding.source_component.is_empty(), "{}: empty source_component", finding.id);
    }
}

fn map<const N: usize>(pairs: &[(&'static str, &'static str); N]) -> EnvVars {
    let mut m = EnvVars::new();
    for (key, value) in pairs {
        m.insert(key, value);
    }
    m
}

fn fixture_snapshot<const NP: usize, const NA: usize>(
    process: &[(&'static str, &'static str); NP],
    activation: Option<&[(&'static str, &'static str); NA]>,
) -> Snapshot {
    let process_map = map(process);
    let activation_map = activation.map(map);
    let collected_at = SystemTime::now()
        .duration_since(UNIX_EPOCH)
        .unwrap()
        .as_millis()
        .try_into()
        .unwrap();
    let mut snapshot = Snapshot::new(collected_at);
    snapshot.session = Section::available(session_info(&process_map));
    snapshot.environment =
        Section::available(environment_info(process_map, None, activation_map.as_ref()));
    snapshot
}

fn ids(findings: &[Finding]) -> Vec<&str> {
    findings.iter().map(|f| f.id.as_str()).collect()
}

#[test]
fn healthy_ubuntu_gnome_wayland_yields_no_findings() {
    let process = [
        ("XDG_CURRENT_DESKTOP", "ubuntu:GNOME"),
        ("XDG_SESSION_DESKTOP", "ubuntu"),
        ("XDG_SESSION_TYPE", "wayland"),
        ("WAYLAND_DISPLAY", "wayland-0"),
    ];
    let snapshot = fixture_snapshot(&process, Some(&process));
    assert!(evaluate(&snapshot).is_empty());
}

#[test]
fn missing_xdg_current_desktop_fires_env001_only() {
    let process = [
        ("XDG_SESSION_DESKTOP", "gnome"),
        ("XDG_SESSION_TYPE", "wayland"),
        ("WAYLAND_DISPLAY", "wayland-0"),
    ];
    let snapshot = fixture_snapshot(&process, Some(&process));
    assert_eq!(ids(&evaluate(&snapshot)), ["ENV001"]);
}

#[test]
fn wayland_without_wayland_display_fires_env003_only() {
    let process = [
        ("XDG_CURRENT_DESKTOP", "GNOME"),
        ("XDG_SESSION_TYPE", "wayland"),
    ];
    let snapshot = fixture_snapshot(&process, Some(&process));
    assert_eq!(ids(&evaluate(&snapshot)), ["ENV003"]);
}

#[test]
fn x11_session_without_display_is_recognized_and_quiet() {
    // Sanity: ENV003 must not fire outside Wayland sessions.
    let process = [
        ("XDG_CURRENT_DESKTOP", "GNOME"),
        ("XDG_SESSION_TYPE", "x11"),
    ];
    let snapshot = fixture_snapshot(&process, Some(&process));
    assert!(evaluate(&snapshot).is_empty());
}

#[test]
fn activation_mismatch_fires_env004_with_details() {
    let process = [
        ("XDG_CURRENT_DESKTOP", "GNOME"),
        ("XDG_SESSION_TYPE", "wayland"),
        ("WAYLAND_DISPLAY", "wayland-0"),
    ];
    let activation = [("XDG_CURRENT_DESKTOP", "KDE"), ("XDG_SESSION_TYPE", "x11")];
    let snapshot = fixture_snapshot(&process, Some(&activation));
    let findings = evaluate(&snapshot);
    assert_eq!(ids(&findings), ["ENV004"]);
    assert_contract(&findings);
    assert!(findings[0].summary.contains("XDG_CURRENT_DESKTOP"));
    assert!(findings[0].summary.contains("XDG_SESSION_TYPE"));
}

#[test]
fn unavailable_activation_comparison_suppresses_env004() {
    // Session context is complete so only the suppressed ENV004 could fire.
    let process = [
        ("XDG_CURRENT_DESKTOP", "GNOME"),
        ("XDG_SESSION_TYPE", "wayland"),
        ("WAYLAND_DISPLAY", "wayland-0"),
    ];
    let snapshot = fixture_snapshot(&process, None::<&[(&'static str, &'static str); 0]>);
    assert!(evaluate(&snapshot).is_empty());
}

#[test]
fn unknown_session_type_fires_env002() {
    let process = [
        ("XDG_CURRENT_DESKTOP", "GNOME"),
        ("XDG_SESSION_TYPE", "mir"),
    ];
    let snapshot = fixture_snapshot(&process, Some(&process));
    let findings = evaluate(&snapshot);
    assert_eq!(ids(&findings), ["ENV002"]);
    assert_contract(&findings);
}

#[test]
fn evaluation_is_deterministic_across_runs() {
    let process = [
        ("XDG_SESSION_TYPE", "wayland"),
        ("XDG_CURRENT_DESKTOP", "KDE"),
    ];
    let activation = [("XDG_CURRENT_DESKTOP", "GNOME")];
    let first = evaluate(&fixture_snapshot(&process, Some(&activation)));
    let second = evaluate(&fixture_snapshot(&process, Some(&activation)));
    assert_eq!(first, second);
}

#[test]
fn rules_expose_stable_ids() {
    assert_eq!(Env001.id(), "ENV001");
    assert_eq!(Env002.id(), "ENV002");
    assert_eq!(Env003.id(), "ENV003");
    assert_eq!(Env004.id(), "ENV004");
}
