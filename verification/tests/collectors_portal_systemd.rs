use portaldoctor::collectors::portal_config::parse_config;
use portaldoctor::collectors::portal_files::parse_portal_file;
use portaldoctor::collectors::systemd_user::parse_show_output;
use portaldoctor::model::service::UnitState;
use portaldoctor::text::split_tokens;

const KDE_UNIT: &str = "xdg-desktop-portal-kde.service";

#[test]
fn parses_preferred_entries_with_lists() {
    let (prefs, errors) = parse_config(
        "# comment\n[preferred]\n\
         org.freedesktop.impl.portal.Screenshot=gnome;gtk\n\
         org.freedesktop.impl.portal.FileChooser=gtk\n",
        "/cfg/xdg-desktop-portal/portals.conf",
        1,
    );
    assert!(errors.is_empty());
    assert_eq!(prefs.len(), 2);
    assert_eq!(prefs[0].interface, "org.freedesktop.impl.portal.Screenshot");
    assert_eq!(prefs[0].backends, ["gnome", "gtk"]);
    assert_eq!(prefs[1].interface, "org.freedesktop.impl.portal.FileChooser");
    assert_eq!(prefs[1].source_priority, 1);
}

#[test]
fn preserves_star_and_none_tokens() {
    let (prefs, _) = parse_config(
        "[preferred]\n\
         org.freedesktop.impl.portal.Secret=*\n\
         org.freedesktop.impl.portal.Print=none\n",
        "portals.conf",
        0,
    );
    assert_eq!(prefs[0].backends, ["*"]);
    assert_eq!(prefs[1].backends, ["none"]);
}

#[test]
fn tolerates_comma_and_space_separated_lists() {
    let (prefs, _) = parse_config(
        "[preferred]\norg.freedesktop.impl.portal.Screenshot=gnome, gtk\n",
        "portals.conf",
        0,
    );
    assert_eq!(prefs[0].backends, ["gnome", "gtk"]);
}

#[test]
fn reports_malformed_lines_and_ignores_other_sections() {
    let (prefs, errors) = parse_config(
        "[other]\nkey=value\n[preferred]\nbroken-line\n\
         org.freedesktop.impl.portal.Screenshot=\n",
        "portals.conf",
        0,
    );
    assert!(prefs.is_empty());
    assert_eq!(errors.len(), 2);
    assert!(errors[0].contains("missing '='"));
    assert!(errors[1].contains("empty backend list"));
}

#[test]
fn parses_descriptor_fields_and_lists() {
    let text = "[portal]\n\
                DBusName=org.freedesktop.impl.portal.desktop.gnome\n\
                Interfaces=org.freedesktop.impl.portal.Screenshot;org.freedesktop.impl.portal.ScreenCast\n\
                UseIn=gnome\n";
    let backend = parse_portal_file(
        text,
        "/usr/share/xdg-desktop-portal/portals/gnome.portal",
        "gnome".to_owned(),
    );
    assert_eq!(backend.id, "gnome");
    assert_eq!(backend.dbus_name, "org.freedesktop.impl.portal.desktop.gnome");
    assert!(backend.interfaces.iter().any(|i| i == "org.freedesktop.impl.portal.Screenshot"));
    assert!(backend.interfaces.iter().any(|i| i == "org.freedesktop.impl.portal.ScreenCast"));
    assert_eq!(backend.legacy_use_in, ["gnome"]);
}

#[test]
fn tolerates_missing_keys_and_foreign_sections() {
    let text = "[other]\nkey=value\n[portal]\nDBusName=x\n";
    let backend = parse_portal_file(text, "p.portal", "p".to_owned());
    assert_eq!(backend.dbus_name, "x");
    assert!(backend.interfaces.is_empty());
    assert!(backend.legacy_use_in.is_empty());
}

#[test]
fn split_tokens_handles_mixed_separators() {
    assert_eq!(split_tokens("a;b, c"), ["a", "b", "c"]);
    assert!(split_tokens("").is_empty());
}

#[test]
fn parses_active_kde_backend_unit() {
    let status = parse_show_output("active\nrunning\nstatic\n", KDE_UNIT);
    assert_eq!(status.unit, KDE_UNIT);
    assert_eq!(status.state, UnitState::Active);
    assert_eq!(status.sub_state.as_deref(), Some("running"));
    assert_eq!(status.unit_file_state.as_deref(), Some("static"));
}

#[test]
fn parses_failed_kde_backend_unit() {
    let status = parse_show_output("failed\nfailed\nstatic\n", KDE_UNIT);
    assert_eq!(status.unit, KDE_UNIT);
    assert_eq!(status.state, UnitState::Failed);
    assert_eq!(status.sub_state.as_deref(), Some("failed"));
    assert_eq!(status.unit_file_state.as_deref(), Some("static"));
}

#[test]
fn maps_unknown_kde_backend_unit_to_not_found() {
    let status = parse_show_output("unknown\n\n\n", KDE_UNIT);
    assert_eq!(status.unit, KDE_UNIT);
    assert_eq!(status.state, UnitState::NotFound);
    assert_eq!(status.sub_state, None);
    assert_eq!(status.unit_file_state, None);
}
