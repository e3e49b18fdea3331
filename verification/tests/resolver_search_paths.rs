use portaldoctor::model::environment::SearchRoots;
use portaldoctor::resolver::search_paths::{portal_config_candidates, portal_descriptor_roots};

fn roots() -> SearchRoots {
    SearchRoots {
        config_roots: vec!["/home/tester/.config".to_owned(), "/cfg/global".to_owned()],
        data_roots: vec![
            "/home/tester/.local/share".to_owned(),
            "/usr/local/share".to_owned(),
            "/usr/share".to_owned(),
        ],
    }
}

#[test]
fn config_candidates_order_desktops_then_generic() {
    let desktops = vec!["ubuntu".to_owned(), "GNOME".to_owned()];
    let paths = portal_config_candidates(&roots(), &desktops);
    assert_eq!(
        paths,
        [
            "/home/tester/.config/xdg-desktop-portal/ubuntu-portals.conf",
            "/cfg/global/xdg-desktop-portal/ubuntu-portals.conf",
            "/home/tester/.config/xdg-desktop-portal/GNOME-portals.conf",
            "/cfg/global/xdg-desktop-portal/GNOME-portals.conf",
            "/home/tester/.config/xdg-desktop-portal/portals.conf",
            "/cfg/global/xdg-desktop-portal/portals.conf",
        ]
    );
}

#[test]
fn descriptor_roots_follow_data_root_precedence() {
    let paths = portal_descriptor_roots(&roots());
    assert_eq!(
        paths,
        [
            "/home/tester/.local/share/xdg-desktop-portal/portals",
            "/usr/local/share/xdg-desktop-portal/portals",
            "/usr/share/xdg-desktop-portal/portals",
        ]
    );
}
