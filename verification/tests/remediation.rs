use portaldoctor::collectors::environment::{environment_info, session_info};
use portaldoctor::model::environment::{EnvVars, EnvironmentRelation};
use portaldoctor::model::section::Section;
use portaldoctor::model::snapshot::Snapshot;
use portaldoctor::remediation::{
    preview_env004, render_terminal, ApplyStatus, NotApplicableReason, RemediationAction, RemediationApplicability,
    RemediationTarget,
};
use portaldoctor::rules::engine::evaluate;

fn map(values: &[(&str, &str)]) -> EnvVars {
    let mut m = EnvVars::new();
    for (key, value) in values {
        m.insert(key, value);
    }
    m
}

fn snapshot(process: &[(&str, &str)], activation: &[(&str, &str)]) -> Snapshot {
    let process = map(process);
    let activation = map(activation);
    let mut snapshot = Snapshot::new(1);
    snapshot.session = Section::available(session_info(&process));
    snapshot.environment =
        Section::available(environment_info(process, None, Some(&activation)));
    snapshot
}

fn healthy_process() -> [(&'static str, &'static str); 4] {
    [
        ("XDG_CURRENT_DESKTOP", "GNOME"),
        ("XDG_SESSION_DESKTOP", "gnome"),
        ("XDG_SESSION_TYPE", "wayland"),
        ("WAYLAND_DISPLAY", "wayland-0"),
    ]
}

#[test]
fn applicable_preview_is_typed_and_deterministic() {
    let process = healthy_process();
    let activation = [
        ("XDG_CURRENT_DESKTOP", "KDE"),
        ("XDG_SESSION_DESKTOP", "gnome"),
        ("XDG_SESSION_TYPE", "wayland"),
    ];
    let snapshot = snapshot(&process, &activation);
    let findings = evaluate(&snapshot);
    let preview = preview_env004(&snapshot, &findings);

    assert_eq!(preview.finding_id, "ENV004");
    assert_eq!(preview.applicability, RemediationApplicability::Applicable);
    let proposal = preview.proposal.as_ref().expect("applicable proposal");
    assert_eq!(
        proposal.action,
        RemediationAction::ImportActivationEnvironment
    );
    assert_eq!(
        proposal.target,
        RemediationTarget::SystemdUserActivationEnvironment
    );
    assert!(proposal.dry_run);
    assert_eq!(proposal.apply, ApplyStatus::NotImplemented);
    assert_eq!(
        proposal
            .environment_updates
            .iter()
            .map(|update| (update.key.as_str(), update.value.as_str()))
            .collect::<Vec<_>>(),
        vec![
            ("WAYLAND_DISPLAY", "wayland-0"),
            ("XDG_CURRENT_DESKTOP", "GNOME")
        ]
    );
    assert!(proposal.files_modified.is_empty());
    assert!(proposal.service_restarts.is_empty());
    assert!(proposal.package_changes.is_empty());
    assert!(proposal.configuration_changes.is_empty());

    let text = render_terminal(&preview);
    assert!(text.contains("XDG_CURRENT_DESKTOP=GNOME"));
    assert!(text.contains("WAYLAND_DISPLAY=wayland-0"));
    assert!(text.contains("Files modified: none"));
    assert!(text.contains("Apply: not implemented"));
}

#[test]
fn absent_env004_finding_produces_no_proposal() {
    let process = healthy_process();
    let snapshot = snapshot(&process, &process);
    let preview = preview_env004(&snapshot, &evaluate(&snapshot));

    assert_eq!(
        preview.applicability,
        RemediationApplicability::NotApplicable {
            reason: NotApplicableReason::FindingNotPresent
        }
    );
    assert!(preview.proposal.is_none());
}

#[test]
fn missing_process_side_value_fails_closed() {
    let process = [
        ("XDG_CURRENT_DESKTOP", "GNOME"),
        ("XDG_SESSION_DESKTOP", "gnome"),
        ("XDG_SESSION_TYPE", "wayland"),
    ];
    let activation = [
        ("XDG_CURRENT_DESKTOP", "KDE"),
        ("XDG_SESSION_DESKTOP", "gnome"),
        ("XDG_SESSION_TYPE", "wayland"),
        ("WAYLAND_DISPLAY", "wayland-0"),
    ];
    let snapshot = snapshot(&process, &activation);
    let findings = evaluate(&snapshot);
    let preview = preview_env004(&snapshot, &findings);

    assert_eq!(
        preview.applicability,
        RemediationApplicability::NotApplicable {
            reason: NotApplicableReason::MissingProcessValue
        }
    );
    assert!(preview.proposal.is_none());
}

#[test]
fn unsupported_or_stale_snapshot_fails_closed() {
    let process = healthy_process();
    let activation = [
        ("XDG_CURRENT_DESKTOP", "KDE"),
        ("XDG_SESSION_DESKTOP", "gnome"),
        ("XDG_SESSION_TYPE", "wayland"),
    ];
    let mut snapshot_value = snapshot(&process, &activation);
    let findings = evaluate(&snapshot_value);
    snapshot_value.environment = Section::unavailable("test unavailable");
    assert_eq!(
        preview_env004(&snapshot_value, &findings).applicability,
        RemediationApplicability::NotApplicable {
            reason: NotApplicableReason::SnapshotUnavailable
        }
    );

    let mut schema_snapshot = snapshot(&process, &activation);
    schema_snapshot.schema_version += 1;
    assert_eq!(
        preview_env004(&schema_snapshot, &findings).applicability,
        RemediationApplicability::NotApplicable {
            reason: NotApplicableReason::SnapshotSchemaMismatch
        }
    );

    let mut timestamp_snapshot = snapshot(&process, &activation);
    timestamp_snapshot.collected_at = 0;
    assert_eq!(
        preview_env004(&timestamp_snapshot, &findings).applicability,
        RemediationApplicability::NotApplicable {
            reason: NotApplicableReason::SnapshotTimestampMissing
        }
    );
}

#[test]
fn inconsistent_snapshot_evidence_produces_no_proposal() {
    let process = healthy_process();
    let activation = [
        ("XDG_CURRENT_DESKTOP", "KDE"),
        ("XDG_SESSION_DESKTOP", "gnome"),
        ("XDG_SESSION_TYPE", "wayland"),
    ];
    let mut snapshot_value = snapshot(&process, &activation);
    let findings = evaluate(&snapshot_value);
    snapshot_value
        .environment
        .value
        .as_mut()
        .expect("environment value")
        .activation_comparison
        .entries[0]
        .relation = EnvironmentRelation::Equal;

    let preview = preview_env004(&snapshot_value, &findings);
    assert_eq!(
        preview.applicability,
        RemediationApplicability::NotApplicable {
            reason: NotApplicableReason::SnapshotInconsistent
        }
    );
    assert!(preview.proposal.is_none());
}
