use portaldoctor::collectors::journal::{
    allowlisted_units, classify_message, compact_whitespace, is_allowlisted_unit, journal_arguments, parse_journal_output,
    parse_u8, redact_absolute_paths, sanitize_message, truncate_message, JOURNAL_MAX_ENTRIES,
};
use portaldoctor::model::journal::{JournalClassification, JournalMatchState};

#[test]
fn allowlist_accepts_only_portal_and_media_units() {
    assert!(is_allowlisted_unit("pipewire.service"));
    assert!(is_allowlisted_unit("xdg-desktop-portal-gnome.service"));
    assert!(!is_allowlisted_unit("sshd.service"));
    assert!(!is_allowlisted_unit("xdg-desktop-portal-gnome.socket"));
}

#[test]
fn requested_units_are_filtered_sorted_and_deduplicated() {
    let units = vec![
        "wireplumber.service".to_owned(),
        "sshd.service".to_owned(),
        "pipewire.service".to_owned(),
        "wireplumber.service".to_owned(),
    ];
    assert_eq!(allowlisted_units(&units), ["pipewire.service", "wireplumber.service"]);
    let args = journal_arguments(&allowlisted_units(&units));
    assert_eq!(
        args,
        [
            "--user",
            "--boot=0",
            "--since=-30min",
            "--output=json",
            "--no-pager",
            "--quiet",
            "--lines=80",
            "--unit",
            "pipewire.service",
            "--unit",
            "wireplumber.service",
        ]
    );
}

#[test]
fn classify_message_uses_unit_and_markers() {
    assert_eq!(
        classify_message("Failed to activate backend", "xdg-desktop-portal.service"),
        Some(JournalClassification::Portal)
    );
    assert_eq!(
        classify_message("could not open node", "wireplumber.service"),
        Some(JournalClassification::WirePlumber)
    );
    assert_eq!(
        classify_message("ScreenCast session failed", "pipewire.service"),
        Some(JournalClassification::ScreenCast)
    );
    assert_eq!(classify_message("routine startup completed", "pipewire.service"), None);
    assert_eq!(classify_message("unknown failure", "sshd.service"), None);
}

#[test]
fn classifies_relevant_units_without_requiring_component_names_in_messages() {
    let text = &[
        r#"{"_SYSTEMD_USER_UNIT":"xdg-desktop-portal.service","PRIORITY":3,"MESSAGE":"Failed to activate backend"}"#,
        r#"{"_SYSTEMD_USER_UNIT":"wireplumber.service","PRIORITY":3,"MESSAGE":"Failed to connect to session manager"}"#,
        r#"{"_SYSTEMD_USER_UNIT":"pipewire-pulse.service","PRIORITY":3,"MESSAGE":"Connection refused"}"#,
    ]
    .map(|line| format!("{line}\n"))
    .concat();
    let allowed = vec![
        "pipewire-pulse.service".to_owned(),
        "wireplumber.service".to_owned(),
        "xdg-desktop-portal.service".to_owned(),
    ];
    let info = parse_journal_output(text, &allowed).unwrap();
    assert_eq!(info.entries.len(), 3);
    assert_eq!(
        info.entries.iter().map(|entry| entry.classification).collect::<Vec<_>>(),
        vec![JournalClassification::Portal, JournalClassification::WirePlumber, JournalClassification::PipeWire]
    );
}

#[test]
fn parses_classified_entries_and_redacts_private_content() {
    let text = &[
        r#"{"_SYSTEMD_USER_UNIT":"pipewire.service","PRIORITY":"3","MESSAGE":"PipeWire failed for /run/user/1000/pipewire-0 user=tuncay host=setra-dev-node tuncay@setra-dev-node","_HOSTNAME":"private-host"}"#,
        r#"{"_SYSTEMD_USER_UNIT":"pipewire.service","PRIORITY":"6","MESSAGE":"PipeWire is ready"}"#,
        r#"{"_SYSTEMD_USER_UNIT":"pipewire.service","PRIORITY":"3","MESSAGE":"routine startup completed"}"#,
        r#"{"_SYSTEMD_USER_UNIT":"sshd.service","PRIORITY":"3","MESSAGE":"PipeWire failed elsewhere"}"#,
    ]
    .map(|line| format!("{line}\n"))
    .concat();
    let allowed = vec!["pipewire.service".to_owned()];
    let info = parse_journal_output(text, &allowed).unwrap();
    assert_eq!(info.match_state, JournalMatchState::Matched);
    assert_eq!(info.scanned_entry_count, 4);
    assert_eq!(info.entries.len(), 1);
    assert_eq!(info.entries[0].classification, JournalClassification::PipeWire);
    assert!(!info.entries[0].message.contains("tuncay"));
    assert!(!info.entries[0].message.contains("setra-dev-node"));
    assert!(!info.entries[0].message.contains("/run/user"));
    assert!(!format!("{info:?}").contains("private-host"));
}

#[test]
fn sanitizes_colon_prefixed_paths_and_caps_long_messages() {
    let path = "path:/home/tuncay/private-file ";
    let message = format!("PipeWire failed {path}{}", "x".repeat(400));
    let text = format!(r#"{{"_SYSTEMD_USER_UNIT":"pipewire.service","PRIORITY":3,"MESSAGE":"{message}"}}"#);
    let info = parse_journal_output(&text, &vec!["pipewire.service".to_owned()]).unwrap();
    let retained = &info.entries[0].message;
    assert!(!retained.contains("/home/tuncay"));
    assert!(retained.chars().count() <= 240);
    assert!(retained.ends_with('…'));
}

#[test]
fn represents_empty_and_insufficient_evidence_without_guessing() {
    let allowed = vec!["pipewire.service".to_owned()];
    let empty = parse_journal_output("", &allowed).unwrap();
    assert_eq!(empty.match_state, JournalMatchState::NoRelevantEvidence);
    assert!(empty.entries.is_empty());

    let insufficient =
        parse_journal_output(r#"{"_SYSTEMD_USER_UNIT":"pipewire.service","MESSAGE":"PipeWire failed"}"#, &allowed)
            .unwrap();
    assert_eq!(insufficient.match_state, JournalMatchState::InsufficientEvidence);
    assert!(insufficient.entries.is_empty());
}

#[test]
fn rejects_malformed_json_records() {
    let allowed = vec!["pipewire.service".to_owned()];
    assert!(parse_journal_output("not-json\n", &allowed).is_err());
}

#[test]
fn parser_enforces_entry_limit() {
    let allowed = vec!["pipewire.service".to_owned()];
    let line = r#"{"_SYSTEMD_USER_UNIT":"pipewire.service","PRIORITY":"6","MESSAGE":"routine"}"#;
    let text = std::iter::repeat_n(line, JOURNAL_MAX_ENTRIES + 2).collect::<Vec<_>>().join("\n");
    let info = parse_journal_output(&text, &allowed).unwrap();
    assert_eq!(info.scanned_entry_count, JOURNAL_MAX_ENTRIES + 2);
    assert_eq!(info.ignored_entry_count, JOURNAL_MAX_ENTRIES + 2);
}

#[test]
fn priority_digits_parse_only_within_a_byte() {
    assert_eq!(parse_u8("3"), Some(3));
    assert_eq!(parse_u8("255"), Some(255));
    assert_eq!(parse_u8("256"), None);
    assert_eq!(parse_u8(""), None);
    assert_eq!(parse_u8("3a"), None);
}

#[test]
fn sanitizing_removes_paths_and_squeezes_whitespace() {
    assert_eq!(redact_absolute_paths("open /run/user/1000/x failed"), "open <path> failed");
    assert_eq!(compact_whitespace("  a \t b\n c  "), "a b c");
    assert_eq!(sanitize_message("failed\tat   /tmp/x"), "failed at <path>");
    let long = "y".repeat(300);
    let cut = truncate_message(long);
    assert_eq!(cut.chars().count(), 240);
    assert!(cut.ends_with('…'));
    assert_eq!(truncate_message("short".to_owned()), "short");
}

#[test]
fn parse_errors_name_the_line_and_stop_only_within_the_limit() {
    let allowed = vec!["pipewire.service".to_owned()];
    let good = r#"{"_SYSTEMD_USER_UNIT":"pipewire.service","PRIORITY":"6","MESSAGE":"routine"}"#;
    let err = parse_journal_output(&format!("{good}\n\nnot-json\n"), &allowed).unwrap_err();
    assert!(err.starts_with("line 3: "));
    assert_eq!(parse_journal_output("[1,2]\n", &allowed).unwrap_err(), "journal record is not an object");
    let mut lines = vec![good; JOURNAL_MAX_ENTRIES];
    lines.push("not-json");
    let info = parse_journal_output(&lines.join("\n"), &allowed).unwrap();
    assert_eq!(info.scanned_entry_count, JOURNAL_MAX_ENTRIES + 1);
    assert_eq!(info.ignored_entry_count, JOURNAL_MAX_ENTRIES + 1);
}
