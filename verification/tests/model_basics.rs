use portaldoctor::model::evidence::Evidence;
use portaldoctor::model::finding::{Confidence, Severity};
use portaldoctor::model::journal::{JournalClassification, JournalEntry, JournalInfo, JournalMatchState, JOURNAL_MODEL_VERSION};
use portaldoctor::model::portal::RouteStatus;
use portaldoctor::model::portal_frontend::{
    parse_frontend_version_output, parse_package_version_output, parse_semantic_version, PortalFrontendInfo,
    SemanticVersion, VersionEvidenceSource, PORTAL_FRONTEND_COMPONENT,
};
use portaldoctor::model::section::{CollectionNote, Section};
use portaldoctor::model::service::{ServiceInfo, UnitState, UnitStatus};
use portaldoctor::model::snapshot::{PUBLIC_JSON_SCHEMA_VERSION, SNAPSHOT_SCHEMA_VERSION};
use portaldoctor::model::status::CollectorState;

#[test]
fn display_renders_human_text() {
    assert_eq!(Evidence::MissingProvider.to_string(), "missing provider");
}

#[test]
fn severity_display_is_uppercase() {
    assert_eq!(Severity::Warning.to_string(), "WARNING");
    assert_eq!(Confidence::High.to_string(), "HIGH");
}

#[test]
fn no_evidence_state_has_a_stable_label() {
    assert_eq!(JournalMatchState::InsufficientEvidence.as_str(), "insufficient evidence");
}

#[test]
fn journal_info_reports_represented_classifications() {
    let info = JournalInfo {
        model_version: JOURNAL_MODEL_VERSION,
        window_minutes: 30,
        max_entries: 80,
        scanned_entry_count: 1,
        ignored_entry_count: 0,
        match_state: JournalMatchState::Matched,
        entries: vec![JournalEntry {
            unit: "pipewire.service".to_owned(),
            priority: 3,
            classification: JournalClassification::PipeWire,
            message: "PipeWire failed: <path>".to_owned(),
        }],
    };
    assert!(info.has_classification(JournalClassification::PipeWire));
    assert!(!info.has_classification(JournalClassification::Portal));
}

#[test]
fn route_status_labels_are_human_readable() {
    assert_eq!(RouteStatus::Disabled.as_str(), "disabled");
    assert_eq!(RouteStatus::Selected.as_str(), "selected");
}

#[test]
fn failed_sections_carry_notes_instead_of_values() {
    let section: Section<String> = Section::timed_out("collector hung");
    assert_eq!(section.status, CollectorState::TimedOut);
    assert!(section.value.is_none());
    assert_eq!(section.errors, vec![CollectionNote { message: "collector hung".to_owned() }]);
}

#[test]
fn available_section_carries_its_value_without_notes() {
    let section = Section::available("value".to_owned());
    assert_eq!(section.status, CollectorState::Available);
    assert_eq!(section.value.as_deref(), Some("value"));
    assert!(section.errors.is_empty());
}

#[test]
fn schema_version_is_canonical_and_one() {
    assert_eq!(PUBLIC_JSON_SCHEMA_VERSION, 1);
    assert_eq!(SNAPSHOT_SCHEMA_VERSION, PUBLIC_JSON_SCHEMA_VERSION);
}

#[test]
fn display_is_human_readable() {
    assert_eq!(CollectorState::ParseError.to_string(), "parse error");
}

#[test]
fn parses_known_active_states() {
    assert_eq!(UnitState::parse_active_state("active"), UnitState::Active);
    assert_eq!(UnitState::parse_active_state("failed"), UnitState::Failed);
    assert_eq!(UnitState::parse_active_state("whatever"), UnitState::Unreadable);
}

#[test]
fn backend_unit_naming_follows_convention() {
    let unit = UnitStatus {
        unit: "xdg-desktop-portal.service".to_owned(),
        state: UnitState::Active,
        sub_state: None,
        unit_file_state: None,
    };
    assert_eq!(ServiceInfo::frontend_unit(), "xdg-desktop-portal.service");
    assert_eq!(ServiceInfo::backend_unit("gnome"), "xdg-desktop-portal-gnome.service");
    let info = ServiceInfo { units: vec![unit] };
    assert!(info.unit("xdg-desktop-portal.service").is_some());
}

#[test]
fn parses_and_compares_numeric_versions() {
    assert_eq!(parse_semantic_version("1.22.0"), Some(SemanticVersion::new(1, 22, 0)));
    assert!(SemanticVersion::new(1, 23, 0) > SemanticVersion::new(1, 22, 99));
    assert!(SemanticVersion::new(1, 22, 99).is_less(&SemanticVersion::new(1, 23, 0)));
}

#[test]
fn normalizes_supported_distribution_revisions_without_losing_raw_value() {
    let (raw, normalized) = parse_package_version_output("1.22.0+ds-1ubuntu3\n").unwrap();
    assert_eq!(raw, "1.22.0+ds-1ubuntu3");
    assert_eq!(normalized, SemanticVersion::new(1, 22, 0));
    let info = PortalFrontendInfo::new(
        &raw,
        normalized,
        VersionEvidenceSource::DpkgQuery { package: PORTAL_FRONTEND_COMPONENT.to_owned() },
    );
    assert_eq!(info.component, PORTAL_FRONTEND_COMPONENT);
}

#[test]
fn accepts_upstream_frontend_output_and_rejects_ambiguous_versions() {
    assert_eq!(
        parse_frontend_version_output("xdg-desktop-portal 1.22.0\n"),
        Some(("1.22.0".to_owned(), SemanticVersion::new(1, 22, 0)))
    );
    for value in [
        "1.22.0-rc1",
        "1.22.0+git20260909",
        "1.22.0+git-1",
        "1:1.22.0-1",
        "1.22",
        "1.22.0.1",
        "not-a-version",
    ] {
        assert_eq!(parse_semantic_version(value), None, "{value}");
    }
    assert_eq!(parse_frontend_version_output("xdg-desktop-portal 1.22.0\nextra"), None);
}

#[test]
fn semantic_version_renders_dotted() {
    assert_eq!(SemanticVersion::new(1, 22, 0).to_string(), "1.22.0");
}
