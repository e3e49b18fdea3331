use portaldoctor::collectors::activation_environment::parse_show_environment;
use portaldoctor::collectors::os_release::parse;
use portaldoctor::model::environment::EnvVars;
use portaldoctor::text::unquote;

fn map(pairs: &[(&str, &str)]) -> EnvVars {
    let mut m = EnvVars::new();
    for (k, v) in pairs {
        m.insert(k, v);
    }
    m
}

#[test]
fn keeps_only_allowlisted_keys_and_skips_junk() {
    let text = "XDG_CURRENT_DESKTOP=GNOME\nHOME=/home/secret\nNOT_AN_ASSIGNMENT\nDISPLAY=\" :0 \"\nEMPTY=\n";
    assert_eq!(
        parse_show_environment(text),
        map(&[
            ("XDG_CURRENT_DESKTOP", "GNOME"),
            // Quoted values are unquoted but inner spacing is preserved.
            ("DISPLAY", " :0 "),
        ])
    );
}

#[test]
fn activation_environment_unquote_only_strips_matching_outer_pair() {
    assert_eq!(unquote("'x'"), "x");
    assert_eq!(unquote("\"y\""), "y");
    assert_eq!(unquote("z"), "z");
}

#[test]
fn empty_result_is_valid() {
    assert_eq!(parse_show_environment(""), EnvVars::new());
}

#[test]
fn parses_quoted_fields_and_ignores_comments() {
    let info = parse(
        "# comment\nNAME=\"Ubuntu Linux\"\nID=ubuntu\nVERSION_ID='24.04'\nPRETTY_NAME=\"Ubuntu 24.04 LTS\"\n\n",
    );
    assert_eq!(info.id.as_deref(), Some("ubuntu"));
    assert_eq!(info.name.as_deref(), Some("Ubuntu Linux"));
    assert_eq!(info.version_id.as_deref(), Some("24.04"));
    assert_eq!(info.pretty_name.as_deref(), Some("Ubuntu 24.04 LTS"));
}

#[test]
fn missing_fields_stay_none_and_later_assignment_wins() {
    let info = parse("ID=fedora\nID=ubuntu\n");
    assert_eq!(info.id.as_deref(), Some("ubuntu"));
    assert!(info.name.is_none());
    assert!(info.version_id.is_none());
    assert!(info.pretty_name.is_none());
}

#[test]
fn os_release_unquote_only_strips_matching_outer_pair() {
    assert_eq!(unquote("\"quoted\""), "quoted");
    assert_eq!(unquote("'single'"), "single");
    assert_eq!(unquote("plain"), "plain");
    assert_eq!(unquote("\"mixed'"), "\"mixed'");
}
