use portaldoctor::model::evidence::Evidence;
use portaldoctor::model::finding::{Confidence, Finding, Severity};
use portaldoctor::model::journal::{JournalClassification, JournalEntry, JournalInfo, JournalMatchState};
use portaldoctor::model::pipewire::{PipeWireInfo, WirePlumberInfo};
use portaldoctor::model::section::Section;
use portaldoctor::model::snapshot::Snapshot;
use portaldoctor::report::markdown::MarkdownRenderer;
use portaldoctor::report::redact::{
    normalize_home, redact_labeled_values, redact_text, replace_token, RedactionOptions, ShareableReport,
};
use portaldoctor::report::terminal::TerminalRenderer;
use portaldoctor::report::{Renderer, Report};

fn empty_snapshot() -> Snapshot {
    let mut snapshot = Snapshot::new(42);
    snapshot.environment = Section::unavailable("test");
    snapshot
}

#[test]
fn terminal_renderer_reports_findings_state() {
    let report = Report::new(empty_snapshot(), Vec::new(), "0.1.0".to_owned());
    let terse = TerminalRenderer.render(&report, false);
    assert!(terse.contains("Findings: none detected."));
    let verbose = TerminalRenderer.render(&report, true);
    assert!(verbose.contains("Findings: none detected."));
}

#[test]
fn terminal_renderer_reports_media_health() {
    let mut snapshot = empty_snapshot();
    snapshot.pipewire = Section::available(PipeWireInfo {
        model_version: 1,
        version: Some("1.6.2".to_owned()),
        object_count: 81,
        node_count: 10,
        link_count: 3,
        portal_client_count: 1,
        screen_cast_source_count: 1,
        nodes: Vec::new(),
        links: Vec::new(),
    });
    snapshot.wireplumber = Section::available(WirePlumberInfo {
        model_version: 1,
        pipewire_version: Some("1.6.2".to_owned()),
        wireplumber_client_count: 2,
    });
    let report = Report::new(snapshot, Vec::new(), "0.1.0".to_owned());
    let text = TerminalRenderer.render(&report, false);
    assert!(text.contains("PipeWire: reachable · 1.6.2 · 81 objects · 10 nodes · 3 links"));
    assert!(text.contains("WirePlumber: reachable · 1.6.2 · 2 client(s)"));
}

#[test]
fn terminal_renderer_reports_sanitized_journal_excerpts_only_in_verbose_mode() {
    let mut snapshot = empty_snapshot();
    snapshot.journal = Section::available(JournalInfo {
        model_version: 1,
        window_minutes: 30,
        max_entries: 80,
        scanned_entry_count: 1,
        ignored_entry_count: 0,
        match_state: JournalMatchState::Matched,
        entries: vec![JournalEntry {
            unit: "pipewire.service".to_owned(),
            priority: 3,
            classification: JournalClassification::PipeWire,
            message: "PipeWire failed for <path> user=<redacted>".to_owned(),
        }],
    });
    let report = Report::new(snapshot, Vec::new(), "0.1.0".to_owned());
    let terse = TerminalRenderer.render(&report, false);
    assert!(terse.contains("Journal: current boot · 30 min · 1 relevant entry · matched"));
    assert!(terse.contains("use --verbose for sanitized journal excerpts"));
    let verbose = TerminalRenderer.render(&report, true);
    assert!(verbose.contains("PipeWire failure"));
    assert!(verbose.contains("user=<redacted>"));
    assert!(!verbose.contains("/home/tuncay"));
}

#[test]
fn normalizes_home_only_at_path_boundaries() {
    assert_eq!(
        normalize_home("/home/alice/.config and /home/alice2", Some("/home/alice")),
        "$HOME/.config and /home/alice2"
    );
}

#[test]
fn redacts_secret_and_hostname_labels() {
    let options = RedactionOptions {
        home: Some("/home/alice".to_owned()),
        suppress_hostname: true,
        hostname: Some("workstation".to_owned()),
    };
    let text = redact_text("/home/alice token=abc host=workstation workstation", &options);
    assert_eq!(text, "$HOME token=<redacted> host=<hostname> <hostname>");
}

#[test]
fn labeled_redaction_keeps_delimiters() {
    assert_eq!(redact_labeled_values("token=abc, next", &vec!["token"], "<redacted>"), "token=<redacted>, next");
}

#[test]
fn hostname_token_matching_does_not_touch_longer_tokens() {
    assert_eq!(
        replace_token("node workstation workstation-2", "workstation", "<hostname>"),
        "node <hostname> workstation-2"
    );
}

#[test]
fn shareable_markdown_is_deterministic_and_redacted() {
    let options = RedactionOptions {
        home: Some("/home/alice".to_owned()),
        suppress_hostname: true,
        hostname: Some("workstation".to_owned()),
    };
    let report = || Report::new(empty_snapshot(), Vec::new(), "0.1.0".to_owned());
    let first = ShareableReport::from_report(report(), &options);
    let second = ShareableReport::from_report(report(), &options);
    let a = MarkdownRenderer::render(&first, true);
    let b = MarkdownRenderer::render(&second, true);
    assert_eq!(a, b);
    assert!(a.starts_with("# PortalDoctor diagnostic report\n"));
    assert!(!a.contains("workstation"));
}

#[test]
fn markdown_report_explains_pipewire_failure_and_next_step() {
    let options = RedactionOptions {
        home: Some("/home/alice".to_owned()),
        suppress_hostname: true,
        hostname: Some("workstation".to_owned()),
    };
    let finding = Finding {
        id: "PW001".to_owned(),
        severity: Severity::Warning,
        confidence: Confidence::High,
        title: "PipeWire is unavailable".to_owned(),
        summary: "PipeWire state could not be collected: command unavailable".to_owned(),
        explanation: "ScreenCast needs a reachable PipeWire session.".to_owned(),
        evidence: vec![Evidence::PipeWireState],
        impact: Some("ScreenCast readiness cannot be confirmed.".to_owned()),
        recommendation: vec![
            "Install the package that provides `pw-dump`, then verify the user PipeWire session is running.".to_owned(),
        ],
        source_component: "pipewire".to_owned(),
    };
    let report = Report::new(empty_snapshot(), vec![finding], "0.1.0".to_owned());
    let document = ShareableReport::from_report(report, &options);
    let rendered = MarkdownRenderer::render(&document, false);
    assert!(rendered.contains("PipeWire is unavailable"));
    assert!(rendered.contains("pipewire state"));
    assert!(rendered.contains("Install the package that provides `pw-dump`"));
}
