use portaldoctor::model::portal::{PortalBackend, PortalConfigInfo, PortalPreference, RouteStatus};
use portaldoctor::resolver::portal_routes::resolve_routes;
fn backend(id: &str, dbus: &str, interfaces: &[&str], use_in: &[&str]) -> PortalBackend {
    PortalBackend {
        id: id.to_owned(),
        descriptor_path: format!("/usr/share/xdg-desktop-portal/portals/{id}.portal"),
        duplicate_descriptors: Vec::new(),
        dbus_name: dbus.to_owned(),
        interfaces: interfaces.iter().map(|s| (*s).to_owned()).collect(),
        legacy_use_in: use_in.iter().map(|s| (*s).to_owned()).collect(),
    }
}

fn preference(interface: &str, backends: &[&str]) -> PortalPreference {
    PortalPreference {
        interface: interface.to_owned(),
        backends: backends.iter().map(|s| (*s).to_owned()).collect(),
        source_file: "/cfg/xdg-desktop-portal/portals.conf".to_owned(),
        source_priority: 1,
    }
}

fn config(preferences: Vec<PortalPreference>) -> PortalConfigInfo {
    PortalConfigInfo {
        candidate_files: vec!["/cfg/xdg-desktop-portal/portals.conf".to_owned()],
        selected_file: Some("/cfg/xdg-desktop-portal/portals.conf".to_owned()),
        preferences,
        parse_errors: Vec::new(),
        lower_priority_candidates: Vec::new(),
    }
}

fn route<'a>(
    interface: &str,
    routes: &'a [portaldoctor::model::portal::PortalRoute],
) -> &'a portaldoctor::model::portal::PortalRoute {
    routes.iter().find(|r| r.interface == interface).unwrap()
}

const FILE_CHOOSER: &str = "org.freedesktop.impl.portal.FileChooser";
const SCREENCAST: &str = "org.freedesktop.impl.portal.ScreenCast";
const SCREENSHOT: &str = "org.freedesktop.impl.portal.Screenshot";

#[test]
fn gnome_default_routing_selects_preferred_backend() {
    let backends = vec![
        backend(
            "gnome",
            "org.freedesktop.impl.portal.desktop.gnome",
            &[SCREENSHOT],
            &["gnome"],
        ),
        backend(
            "gtk",
            "org.freedesktop.impl.portal.desktop.gtk",
            &[SCREENSHOT],
            &[],
        ),
    ];
    let config = config(vec![preference(SCREENSHOT, &["gnome", "gtk"])]);
    let routes = resolve_routes(&vec!["GNOME".to_owned()], &config, &backends);
    let shot = route(SCREENSHOT, &routes);
    assert_eq!(shot.requested_candidates, ["gnome", "gtk"]);
    assert_eq!(shot.available_candidates, ["gnome", "gtk"]);
    // Both preferred backends are selected candidates in preference order.
    assert_eq!(shot.selected_candidates, ["gnome", "gtk"]);
    assert_eq!(shot.status, RouteStatus::Selected);
}

#[test]
fn explicit_filechooser_override_selects_override_backend() {
    let backends = vec![
        backend("gnome", "d.gnome", &[FILE_CHOOSER], &["gnome"]),
        backend("gtk", "d.gtk", &[FILE_CHOOSER], &[]),
    ];
    let config = config(vec![preference(FILE_CHOOSER, &["gtk"])]);
    let routes = resolve_routes(&vec!["GNOME".to_owned()], &config, &backends);
    assert_eq!(route(FILE_CHOOSER, &routes).selected_candidates, ["gtk"]);
}

#[test]
fn configured_backend_not_installed_keeps_available_ones() {
    let backends = vec![backend("gtk", "d.gtk", &[SCREENSHOT], &[])];
    let config = config(vec![preference(SCREENSHOT, &["gnome", "gtk"])]);
    let routes = resolve_routes(&vec!["GNOME".to_owned()], &config, &backends);
    let shot = route(SCREENSHOT, &routes);
    assert_eq!(shot.available_candidates, ["gtk"]);
    assert_eq!(shot.selected_candidates, ["gtk"]);
    assert_eq!(shot.status, RouteStatus::Selected);
}

#[test]
fn backend_installed_but_missing_interface_yields_no_selection() {
    let backends = vec![backend("gnome", "d.gnome", &[], &["gnome"])];
    let config = config(vec![preference(SCREENSHOT, &["gnome"])]);
    let routes = resolve_routes(&vec!["GNOME".to_owned()], &config, &backends);
    let shot = route(SCREENSHOT, &routes);
    assert!(shot.available_candidates.is_empty());
    assert!(shot.selected_candidates.is_empty());
    assert_eq!(shot.status, RouteStatus::NoProvider);
}

#[test]
fn none_preference_disables_the_interface() {
    let backends = vec![backend("gnome", "d.gnome", &[SCREENSHOT], &[])];
    let config = config(vec![preference(SCREENSHOT, &["none"])]);
    let routes = resolve_routes(&vec!["GNOME".to_owned()], &config, &backends);
    let shot = route(SCREENSHOT, &routes);
    assert!(shot.selected_candidates.is_empty());
    assert_eq!(shot.status, RouteStatus::Disabled);
}

#[test]
fn star_preference_selects_every_available_backend() {
    let backends = vec![
        backend("gnome", "d.gnome", &[SCREENSHOT], &[]),
        backend("gtk", "d.gtk", &[SCREENSHOT], &[]),
    ];
    let config = config(vec![preference(SCREENSHOT, &["*"])]);
    let routes = resolve_routes(&vec!["GNOME".to_owned()], &config, &backends);
    assert_eq!(
        route(SCREENSHOT, &routes).selected_candidates,
        ["gnome", "gtk"]
    );
}

#[test]
fn no_preference_defaults_to_all_available() {
    let backends = vec![
        backend("gnome", "d.gnome", &[SCREENCAST], &[]),
        backend("gtk", "d.gtk", &[SCREENCAST], &[]),
    ];
    let routes = resolve_routes(&vec!["GNOME".to_owned()], &config(Vec::new()), &backends);
    let cast = route(SCREENCAST, &routes);
    assert!(cast.requested_candidates.is_empty());
    assert_eq!(cast.available_candidates, ["gnome", "gtk"]);
    assert_eq!(cast.selected_candidates, ["gnome", "gtk"]);
    assert_eq!(cast.status, RouteStatus::Selected);
}

#[test]
fn use_in_excludes_backend_from_other_desktops() {
    let backends = vec![backend("gnome", "d.gnome", &[SCREENSHOT], &["gnome"])];
    let routes = resolve_routes(&vec!["KDE".to_owned()], &config(Vec::new()), &backends);
    let shot = route(SCREENSHOT, &routes);
    assert!(shot.available_candidates.is_empty());
    assert_eq!(shot.status, RouteStatus::NoProvider);
    assert!(shot.evidence.iter().any(|e| e.message.contains("UseIn")));
}

#[test]
fn multiple_desktop_names_allow_any_matching_backend() {
    let backends = vec![backend("gnome", "d.gnome", &[SCREENSHOT], &["GNOME"])];
    let routes = resolve_routes(
        &vec!["ubuntu".to_owned(), "GNOME".to_owned()],
        &config(Vec::new()),
        &backends,
    );
    assert_eq!(route(SCREENSHOT, &routes).available_candidates, ["gnome"]);
}

#[test]
fn routes_are_deterministic_and_sorted_by_interface() {
    let backends = vec![
        backend("gtk", "d.gtk", &[SCREENSHOT], &[]),
        backend("gnome", "d.gnome", &[SCREENCAST, SCREENSHOT], &[]),
    ];
    let routes = resolve_routes(&vec!["GNOME".to_owned()], &config(Vec::new()), &backends);
    let interfaces: Vec<&str> = routes.iter().map(|r| r.interface.as_str()).collect();
    let mut sorted = interfaces.clone();
    sorted.sort_unstable();
    assert_eq!(interfaces, sorted);
    assert!(routes.iter().any(|r| r.interface == SCREENCAST));
    assert!(routes.iter().any(|r| r.interface == SCREENSHOT));
}

#[test]
fn configured_interface_without_backends_is_no_provider() {
    let backends: Vec<PortalBackend> = Vec::new();
    let config = config(vec![preference(SCREENCAST, &["gnome"])]);
    let routes = resolve_routes(&vec!["GNOME".to_owned()], &config, &backends);
    let cast = route(SCREENCAST, &routes);
    assert_eq!(cast.status, RouteStatus::NoProvider);
    assert!(cast.available_candidates.is_empty());
}

#[test]
fn selected_backends_are_always_available() {
    let backends = vec![
        backend("gnome", "org.freedesktop.impl.portal.desktop.gnome", &[SCREENSHOT, SCREENCAST], &["gnome"]),
        backend("gtk", "org.freedesktop.impl.portal.desktop.gtk", &[FILE_CHOOSER, SCREENSHOT], &[]),
        backend("kde", "org.freedesktop.impl.portal.desktop.kde", &[SCREENCAST], &["kde"]),
    ];
    let config = config(vec![
        preference(SCREENSHOT, &["kde", "gnome"]),
        preference(SCREENCAST, &["kde"]),
        preference(FILE_CHOOSER, &["none"]),
    ]);
    let routes = resolve_routes(&vec!["gnome".to_owned()], &config, &backends);
    for r in &routes {
        for selected in &r.selected_candidates {
            assert!(r.available_candidates.contains(selected));
        }
        assert_eq!(r.status == RouteStatus::Selected, !r.selected_candidates.is_empty());
    }
    assert_eq!(route(SCREENSHOT, &routes).selected_candidates, ["gnome"]);
    assert_eq!(route(SCREENCAST, &routes).status, RouteStatus::NoProvider);
    assert_eq!(route(FILE_CHOOSER, &routes).status, RouteStatus::Disabled);
}
