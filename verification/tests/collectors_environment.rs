use portaldoctor::collectors::environment::{compare_environments, environment_info, search_roots, session_info};
use portaldoctor::model::environment::{EnvVars, EnvironmentRelation, SessionType};

fn vars(pairs: &[(&str, &str)]) -> EnvVars {
    let mut v = EnvVars::new();
    for (k, value) in pairs {
        v.insert(k, value);
    }
    v
}

#[test]
fn session_info_parses_known_session_types() {
    let v = vars(&[
        ("XDG_CURRENT_DESKTOP", "ubuntu:GNOME"),
        ("XDG_SESSION_TYPE", "wayland"),
        ("WAYLAND_DISPLAY", "wayland-0"),
    ]);
    let info = session_info(&v);
    assert_eq!(info.current_desktop.as_deref(), Some("ubuntu:GNOME"));
    assert_eq!(info.session_type, Some(SessionType::Wayland));
    assert_eq!(info.wayland_display.as_deref(), Some("wayland-0"));
}

#[test]
fn unknown_session_type_keeps_raw_value() {
    let v = vars(&[("XDG_SESSION_TYPE", "mir")]);
    let info = session_info(&v);
    assert_eq!(info.session_type, None);
    assert_eq!(info.session_type_raw.as_deref(), Some("mir"));
}

#[test]
fn search_roots_follow_spec_defaults_without_xdg_overrides() {
    let roots = search_roots(&vars(&[]), Some("/home/tester"));
    assert_eq!(roots.config_roots, ["/home/tester/.config", "/etc/xdg"]);
    assert_eq!(
        roots.data_roots,
        ["/home/tester/.local/share", "/usr/local/share", "/usr/share"]
    );
}

#[test]
fn search_roots_without_home_skip_home_derived_defaults() {
    let roots = search_roots(&vars(&[]), None);
    assert_eq!(roots.config_roots, ["/etc/xdg"]);
    assert_eq!(roots.data_roots, ["/usr/local/share", "/usr/share"]);
}

#[test]
fn search_roots_honor_explicit_overrides_and_skip_empty_entries() {
    let v = vars(&[
        ("XDG_CONFIG_HOME", "/cfg/home"),
        ("XDG_CONFIG_DIRS", "/cfg/global1::/cfg/global2"),
        ("XDG_DATA_HOME", "/data/home"),
        ("XDG_DATA_DIRS", ""),
    ]);
    let roots = search_roots(&v, Some("/home/tester"));
    assert_eq!(roots.config_roots, ["/cfg/home", "/cfg/global1", "/cfg/global2"]);
    // Empty XDG_DATA_DIRS falls back to the spec default list.
    assert_eq!(roots.data_roots, ["/data/home", "/usr/local/share", "/usr/share"]);
}

#[test]
fn comparison_reports_relations_per_key() {
    let process = vars(&[("XDG_CURRENT_DESKTOP", "GNOME"), ("XDG_SESSION_TYPE", "wayland")]);
    let activation = vars(&[
        ("XDG_CURRENT_DESKTOP", "GNOME"),
        ("WAYLAND_DISPLAY", "wayland-0"),
        ("DISPLAY", ":0"),
    ]);
    let comparison = compare_environments(&process, Some(&activation));
    assert!(comparison.performed);
    let by_key = |k: &str| comparison.entries.iter().find(|e| e.key == k).unwrap();
    assert_eq!(by_key("XDG_CURRENT_DESKTOP").relation, EnvironmentRelation::Equal);
    assert_eq!(by_key("XDG_SESSION_TYPE").relation, EnvironmentRelation::MissingActivation);
    assert_eq!(by_key("WAYLAND_DISPLAY").relation, EnvironmentRelation::MissingProcess);
    assert_eq!(by_key("DISPLAY").relation, EnvironmentRelation::MissingProcess);
}

#[test]
fn comparison_not_performed_without_activation_map() {
    let process = vars(&[("XDG_CURRENT_DESKTOP", "GNOME")]);
    let comparison = compare_environments(&process, None);
    assert!(!comparison.performed);
    assert!(comparison.entries.is_empty());
}

#[test]
fn environment_info_assembles_all_parts() {
    let process = vars(&[("XDG_CURRENT_DESKTOP", "GNOME")]);
    let info = environment_info(process.clone(), Some("/h"), Some(&process));
    assert!(info.activation_comparison.performed);
    assert_eq!(info.process, process);
    assert_eq!(info.search_roots.config_roots, ["/h/.config", "/etc/xdg"]);

    let without_activation = environment_info(process, Some("/h"), None);
    assert!(!without_activation.activation_comparison.performed);
}

#[test]
fn model_session_type_covers_x11() {
    assert_eq!(SessionType::from_raw("x11"), Some(SessionType::X11));
    assert_eq!(SessionType::from_raw("tty"), None);
}
