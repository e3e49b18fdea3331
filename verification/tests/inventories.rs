use std::collections::BTreeSet;

use portaldoctor::compatibility::{compatibility_inventory, qualification_transition_allowed, QualificationState};
use portaldoctor::diagnostics::diagnostic_capabilities;

#[test]
fn inventory_is_unique_valid_and_docs_parity_is_exact() {
    let inventory = compatibility_inventory();
    let keys = inventory.iter().map(|entry| entry.key).collect::<Vec<_>>();
    let unique = keys.iter().copied().collect::<BTreeSet<_>>();
    assert_eq!(keys.len(), 5);
    assert_eq!(unique.len(), keys.len());
    assert!(inventory.iter().all(|entry| entry.validate().is_ok()));

    // Each machine-readable row starts with its key and is unique.
    let rows = inventory.iter().copied().map(|entry| entry.doc_row()).collect::<Vec<_>>();
    for (row, key) in rows.iter().zip(keys.iter()) {
        assert!(row.starts_with(&format!("{key}|")));
    }
    assert_eq!(rows.iter().collect::<BTreeSet<_>>().len(), rows.len());
}

#[test]
fn controlled_or_blocked_qualification_cannot_be_promoted_to_live() {
    for state in [
        QualificationState::ControlledOnly,
        QualificationState::ExternallyBlocked,
        QualificationState::NotAvailable,
    ] {
        assert!(!qualification_transition_allowed(state, QualificationState::LiveQualified));
    }
    assert!(qualification_transition_allowed(
        QualificationState::LiveQualified,
        QualificationState::LiveQualified
    ));
}

#[test]
fn missing_live_prerequisite_or_blocker_fails_closed() {
    let inventory = compatibility_inventory();
    let mut row = inventory[1];
    row.prerequisite = "";
    assert!(row.validate().is_err());

    let mut row = inventory[1];
    row.blocker = "";
    assert!(row.validate().is_err());

    let mut row = inventory[0];
    row.live = QualificationState::ControlledOnly;
    row.blocker = "";
    assert!(row.validate().is_err());
}

#[test]
fn inventory_keys_are_unique_and_stable() {
    let capabilities = diagnostic_capabilities();
    let keys = capabilities.iter().map(|capability| capability.key).collect::<Vec<_>>();
    let unique = keys.iter().copied().collect::<BTreeSet<_>>();
    assert_eq!(keys.len(), 7);
    assert_eq!(unique.len(), keys.len());
    assert_eq!(
        keys,
        vec![
            "portal_routing",
            "environment_activation",
            "dbus_runtime",
            "systemd_user_services",
            "pipewire_wireplumber",
            "journal_evidence",
            "active_core_probes",
        ]
    );
}

#[test]
fn capability_rows_name_every_field() {
    let first = diagnostic_capabilities()[0];
    assert_eq!(
        first.doc_row(),
        "portal_routing|runtime=portal_config+portal_files+resolver_portal_routes|snapshot=portal_config+portal_backends+portal_routes|entry_point=default_check+check_portal+portal_list_routes_explain|contract=CFG_XDP_findings|implementation=complete|controlled=complete|qualification=baseline_live;expanded_desktops_controlled_only|blocker=none"
    );
}
