use std::collections::BTreeSet;

use portaldoctor::collectors::activation_environment::parse_show_environment;
use portaldoctor::model::environment::{
    EnvVars, EnvironmentComparison, EnvironmentInfo, EnvironmentRelation, EnvironmentValue, SearchRoots, SessionInfo,
    SessionType,
};
use portaldoctor::model::finding::{Confidence, Finding, Severity};
use portaldoctor::model::journal::{JournalClassification, JournalEntry, JournalInfo, JournalMatchState};
use portaldoctor::model::pipewire::PipeWireInfo;
use portaldoctor::model::section::Section;
use portaldoctor::model::snapshot::Snapshot;
use portaldoctor::report::markdown::MarkdownRenderer;
use portaldoctor::report::redact::{RawDataPolicy, RedactionOptions, ShareableReport, SHAREABLE_REPORT_VERSION};
use portaldoctor::report::walk::redact_report;
use portaldoctor::report::Report;
use portaldoctor::rules::engine::FINDING_IDS;

fn fixture_options() -> RedactionOptions {
    RedactionOptions {
        home: Some("/home/alice".to_owned()),
        suppress_hostname: true,
        hostname: Some("workstation".to_owned()),
    }
}

fn redaction_fixture_report() -> Report {
    let mut snapshot = Snapshot::new(42);
    snapshot.session = Section::available(SessionInfo {
        current_desktop: Some("GNOME".to_owned()),
        session_desktop: Some("gnome".to_owned()),
        session_type: Some(SessionType::Wayland),
        session_type_raw: Some("wayland".to_owned()),
        wayland_display: Some("wayland-0".to_owned()),
        display: None,
    });
    let mut process = EnvVars::new();
    process.insert("PATH", "/home/alice/bin:/usr/bin");
    process.insert("XDG_CONFIG_HOME", "/home/alice/.config");
    process.insert("NOT_ALLOWED", "secret-value");
    snapshot.environment = Section::available(EnvironmentInfo {
        process,
        search_roots: SearchRoots {
            config_roots: vec!["/home/alice/.config".to_owned()],
            data_roots: vec!["/home/alice/.local/share".to_owned()],
        },
        activation_comparison: EnvironmentComparison {
            performed: true,
            entries: vec![EnvironmentValue {
                key: "XDG_CONFIG_HOME".to_owned(),
                process_value: Some("/home/alice/.config".to_owned()),
                activation_value: Some("/home/alice/.config".to_owned()),
                relation: EnvironmentRelation::Equal,
            }],
        },
    });
    Report::new(
        snapshot,
        vec![Finding {
            id: "TEST001".to_owned(),
            severity: Severity::Warning,
            confidence: Confidence::High,
            title: "Host workstation token=title-secret needs review".to_owned(),
            summary: "A path /home/alice password=summary-secret was observed".to_owned(),
            explanation: "token=abc host=workstation".to_owned(),
            evidence: Vec::new(),
            impact: Some("Impact from /home/alice access_token=impact-secret on workstation".to_owned()),
            recommendation: vec!["Review /home/alice authorization=recommend-secret before sharing".to_owned()],
            source_component: "test".to_owned(),
        }],
        "0.1.0".to_owned(),
    )
}

fn process_value<'a>(document: &'a ShareableReport, key: &str) -> Option<&'a str> {
    let env = document.snapshot.environment.value.as_ref().unwrap();
    env.process.entries.iter().find(|(k, _)| k == key).map(|(_, v)| v.as_str())
}

#[test]
fn shareable_redaction_enforces_allowlist_and_normalizes_sensitive_values() {
    let redacted = redact_report(&redaction_fixture_report(), &fixture_options());
    let env = redacted.snapshot.environment.value.as_ref().unwrap();
    let keys: Vec<&str> = env.process.entries.iter().map(|(k, _)| k.as_str()).collect();
    assert_eq!(keys, ["XDG_CONFIG_HOME"]);
    assert_eq!(env.process.entries[0].1, "$HOME/.config");
    assert_eq!(redacted.findings[0].explanation, "token=<redacted> host=<hostname>");
    let encoded = format!("{redacted:?}");
    assert!(!encoded.contains("/home/alice"));
    assert!(!encoded.contains("workstation"));
    assert!(!encoded.contains("secret-value"));
}

#[test]
fn shareable_constructor_is_a_privacy_boundary_for_both_renderers() {
    let mut report = redaction_fixture_report();
    report.snapshot.journal = Section::available(JournalInfo {
        model_version: 1,
        window_minutes: 30,
        max_entries: 80,
        scanned_entry_count: 1,
        ignored_entry_count: 0,
        match_state: JournalMatchState::Matched,
        entries: vec![JournalEntry {
            unit: "xdg-desktop-portal.service".to_owned(),
            priority: 3,
            classification: JournalClassification::Portal,
            message: "journal path=/home/alice token=journal-secret host=workstation".to_owned(),
        }],
    });
    report.snapshot.pipewire = Section::available(PipeWireInfo {
        model_version: 1,
        version: Some("1.6.2".to_owned()),
        object_count: 3,
        node_count: 1,
        link_count: 1,
        portal_client_count: 1,
        screen_cast_source_count: 1,
        nodes: Vec::new(),
        links: Vec::new(),
    });

    let document = ShareableReport::from_report(report, &fixture_options());
    let structure = format!("{document:?}");
    let markdown = MarkdownRenderer::render(&document, true);
    for sensitive in [
        "/home/alice",
        "workstation",
        "secret-value",
        "title-secret",
        "summary-secret",
        "impact-secret",
        "recommend-secret",
        "journal-secret",
    ] {
        assert!(!structure.contains(sensitive), "document leaked {sensitive}");
        assert!(!markdown.contains(sensitive), "Markdown leaked {sensitive}");
    }
    assert!(process_value(&document, "PATH").is_none());
    assert!(process_value(&document, "NOT_ALLOWED").is_none());
    assert_eq!(document.privacy.raw_journal, RawDataPolicy::Excluded);
    assert_eq!(document.privacy.raw_pipewire, RawDataPolicy::Excluded);
    assert!(markdown.contains("| Privacy mode | redacted |"));
    assert!(markdown.contains("| Raw journal / PipeWire | excluded; normalized evidence only |"));
    assert!(markdown.contains("| Hostname | suppressed |"));
}

#[test]
fn shareable_home_normalization_and_rendering_are_deterministic() {
    let first = ShareableReport::from_report(redaction_fixture_report(), &fixture_options());
    let second = ShareableReport::from_report(redaction_fixture_report(), &fixture_options());
    assert_eq!(first, second);
    assert_eq!(MarkdownRenderer::render(&first, true), MarkdownRenderer::render(&second, true));
    assert_eq!(process_value(&first, "XDG_CONFIG_HOME"), Some("$HOME/.config"));
}

#[test]
fn shareable_privacy_metadata_matches_documented_contract() {
    let options = RedactionOptions { home: Some("/home/alice".to_owned()), suppress_hostname: false, hostname: None };
    let document = ShareableReport::from_report(redaction_fixture_report(), &options);
    assert!(document.privacy.redacted);
    assert!(document.privacy.home_normalized);
    assert!(!document.privacy.hostname_suppressed);
    assert_eq!(document.privacy.raw_journal, RawDataPolicy::Excluded);
    assert_eq!(document.privacy.raw_pipewire, RawDataPolicy::Excluded);
    assert_eq!(document.report_version, SHAREABLE_REPORT_VERSION);
    assert!(document.shareable_valid());
}

#[test]
fn shareable_documents_with_other_versions_or_unredacted_are_refused() {
    let document = ShareableReport::from_report(redaction_fixture_report(), &fixture_options());
    let mut schema_mutation = document.clone();
    schema_mutation.schema_version += 1;
    assert!(!schema_mutation.shareable_valid());
    let mut report_mutation = document.clone();
    report_mutation.report_version += 1;
    assert!(!report_mutation.shareable_valid());
    let mut redaction_mutation = document;
    redaction_mutation.privacy.redacted = false;
    assert!(!redaction_mutation.shareable_valid());
}

#[test]
fn documented_catalog_matches_runtime_catalog_without_duplicates() {
    let documented = [
        "CFG001", "CFG002", "CFG003", "CFG004", "DBUS001", "DBUS002", "ENV001", "ENV002", "ENV003", "ENV004",
        "PW001", "PW002", "PW003", "SC001", "SC002", "XDP001", "XDP002", "XDP003", "XDP004", "XDP005", "XDP006",
    ];
    let unique_documented = documented.iter().copied().collect::<BTreeSet<_>>();
    let expected = FINDING_IDS.iter().copied().collect::<BTreeSet<_>>();
    assert_eq!(documented.len(), unique_documented.len());
    assert_eq!(unique_documented, expected);
}

fn strictly_increasing(keys: &[&str]) -> bool {
    keys.windows(2).all(|pair| pair[0] < pair[1])
}

#[test]
fn parsed_and_redacted_environments_keep_keys_in_order() {
    let vars = parse_show_environment(
        "XDG_SESSION_TYPE=wayland\nPATH=/usr/bin\nXDG_CURRENT_DESKTOP=GNOME\nWAYLAND_DISPLAY=wayland-0\nXDG_SESSION_TYPE=x11\n",
    );
    let keys: Vec<&str> = vars.entries.iter().map(|(k, _)| k.as_str()).collect();
    assert_eq!(keys, ["WAYLAND_DISPLAY", "XDG_CURRENT_DESKTOP", "XDG_SESSION_TYPE"]);
    assert!(strictly_increasing(&keys));

    let report = redaction_fixture_report();
    let redacted = redact_report(&report, &fixture_options());
    let environment = redacted.snapshot.environment.value.expect("environment is collected");
    let shared: Vec<&str> = environment.process.entries.iter().map(|(k, _)| k.as_str()).collect();
    assert!(!shared.is_empty());
    assert!(strictly_increasing(&shared));
    assert!(!shared.contains(&"PATH"));
}
