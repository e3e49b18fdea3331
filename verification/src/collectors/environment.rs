//! Desktop/session context, XDG search roots and environment comparison.
use vstd::prelude::*;
use crate::model::environment::{
    EnvVars, EnvironmentComparison, EnvironmentInfo, EnvironmentRelation, EnvironmentValue,
    SearchRoots, SessionInfo, SessionType,
};
use crate::text::{
    clone_opt_string, concat2, contains_string, non_empty, non_empty_pieces, opt_view, split_on,
    split_seq, views,
};

verus! {

/// Variables the tool is allowed to read and report, in their documented
/// order; anything else is never collected.
pub open spec fn allowlist() -> Seq<Seq<char>> {
    seq![
        "XDG_CURRENT_DESKTOP"@,
        "XDG_SESSION_DESKTOP"@,
        "XDG_SESSION_TYPE"@,
        "WAYLAND_DISPLAY"@,
        "DISPLAY"@,
        "XDG_CONFIG_HOME"@,
        "XDG_CONFIG_DIRS"@,
        "XDG_DATA_HOME"@,
        "XDG_DATA_DIRS"@,
        "DBUS_SESSION_BUS_ADDRESS"@,
        "XDG_RUNTIME_DIR"@,
    ]
}

pub open spec fn allowlisted(key: Seq<char>) -> bool {
    allowlist().contains(key)
}

/// The allowlisted variable names, in their documented order.
pub fn allowlisted_variables() -> (r: Vec<&'static str>)
    ensures
        r@.map_values(|s: &'static str| s@) == allowlist(),
{
    let v: Vec<&'static str> = vec![
        "XDG_CURRENT_DESKTOP",
        "XDG_SESSION_DESKTOP",
        "XDG_SESSION_TYPE",
        "WAYLAND_DISPLAY",
        "DISPLAY",
        "XDG_CONFIG_HOME",
        "XDG_CONFIG_DIRS",
        "XDG_DATA_HOME",
        "XDG_DATA_DIRS",
        "DBUS_SESSION_BUS_ADDRESS",
        "XDG_RUNTIME_DIR",
    ];
    assert(v@.map_values(|s: &'static str| s@) =~= allowlist());
    v
}

/// Whether `key` is one of the allowlisted variables.
pub fn is_allowlisted(key: &str) -> (r: bool)
    ensures
        r == allowlisted(key@),
{
    let names = allowlisted_variables();
    let ghost nv = names@.map_values(|s: &'static str| s@);
    let mut i: usize = 0;
    while i < names.len()
        invariant
            nv == names@.map_values(|s: &'static str| s@),
            nv == allowlist(),
            i <= names@.len(),
            forall|k: int| 0 <= k < i ==> nv[k] != key@,
        decreases names@.len() - i,
    {
        if crate::text::eq_str(names[i], key) {
            assert(nv[i as int] == key@);
            return true;
        }
        i = i + 1;
    }
    false
}

/// Keys whose process/activation mismatch is diagnostically relevant.
pub open spec fn comparison_keys() -> Seq<Seq<char>> {
    seq![
        "XDG_CURRENT_DESKTOP"@,
        "XDG_SESSION_DESKTOP"@,
        "XDG_SESSION_TYPE"@,
        "WAYLAND_DISPLAY"@,
        "DISPLAY"@,
    ]
}

pub fn comparison_key_list() -> (r: Vec<&'static str>)
    ensures
        r@.map_values(|s: &'static str| s@) == comparison_keys(),
{
    let v: Vec<&'static str> = vec![
        "XDG_CURRENT_DESKTOP",
        "XDG_SESSION_DESKTOP",
        "XDG_SESSION_TYPE",
        "WAYLAND_DISPLAY",
        "DISPLAY",
    ];
    assert(v@.map_values(|s: &'static str| s@) =~= comparison_keys());
    v
}

pub open spec fn session_info_spec(vars: EnvVars, info: SessionInfo) -> bool {
    &&& opt_view(info.current_desktop) == vars.get_spec("XDG_CURRENT_DESKTOP"@)
    &&& opt_view(info.session_desktop) == vars.get_spec("XDG_SESSION_DESKTOP"@)
    &&& opt_view(info.session_type_raw) == vars.get_spec("XDG_SESSION_TYPE"@)
    &&& info.session_type == match vars.get_spec("XDG_SESSION_TYPE"@) {
        Some(raw) => SessionType::from_raw_spec(raw),
        None => None,
    }
    &&& opt_view(info.wayland_display) == vars.get_spec("WAYLAND_DISPLAY"@)
    &&& opt_view(info.display) == vars.get_spec("DISPLAY"@)
}

/// Derive the desktop/session context from collected variables.
pub fn session_info(vars: &EnvVars) -> (info: SessionInfo)
    ensures
        session_info_spec(*vars, info),
{
    let session_type_raw = vars.get_cloned("XDG_SESSION_TYPE");
    let session_type = match &session_type_raw {
        Some(raw) => SessionType::from_raw(raw.as_str()),
        None => None,
    };
    SessionInfo {
        current_desktop: vars.get_cloned("XDG_CURRENT_DESKTOP"),
        session_desktop: vars.get_cloned("XDG_SESSION_DESKTOP"),
        session_type,
        session_type_raw,
        wayland_display: vars.get_cloned("WAYLAND_DISPLAY"),
        display: vars.get_cloned("DISPLAY"),
    }
}

/// A colon-separated directory list without empty elements; an absent or
/// empty value falls back to the given defaults.
pub open spec fn colon_list(value: Option<Seq<char>>, defaults: Seq<Seq<char>>) -> Seq<Seq<char>> {
    match value {
        Some(list) => if list.len() > 0 {
            non_empty(split_seq(list, seq![':']))
        } else {
            defaults
        },
        None => defaults,
    }
}

fn colon_list_or_default(value: Option<&String>, defaults: &Vec<&'static str>) -> (r: Vec<String>)
    ensures
        views(r@) == colon_list(
            match value {
                Some(v) => Some(v@),
                None => None,
            },
            defaults@.map_values(|s: &'static str| s@),
        ),
{
    match value {
        Some(list) => {
            if !list.as_str().is_empty() {
                let colon: [char; 1] = [':'];
                let parts = split_on(list.as_str(), &colon);
                assert(colon@ =~= seq![':']);
                return non_empty_pieces(&parts);
            }
        },
        None => {},
    }
    let mut out: Vec<String> = Vec::new();
    let mut i: usize = 0;
    while i < defaults.len()
        invariant
            i <= defaults@.len(),
            out@.len() == i,
            forall|k: int| 0 <= k < i ==> (#[trigger] out@[k])@ == defaults@[k]@,
        decreases defaults@.len() - i,
    {
        out.push(defaults[i].to_owned());
        i = i + 1;
    }
    assert(views(out@) =~= defaults@.map_values(|s: &'static str| s@));
    out
}

/// `base` followed by each element of `extra` that is not already present.
pub open spec fn append_new(base: Seq<Seq<char>>, extra: Seq<Seq<char>>) -> Seq<Seq<char>>
    decreases extra.len(),
{
    if extra.len() == 0 {
        base
    } else {
        let prev = append_new(base, extra.drop_last());
        if prev.contains(extra.last()) {
            prev
        } else {
            prev.push(extra.last())
        }
    }
}

fn push_new(out: &mut Vec<String>, extra: Vec<String>)
    ensures
        views(final(out)@) == append_new(views(old(out)@), views(extra@)),
{
    let ghost base = views(out@);
    let mut i: usize = 0;
    while i < extra.len()
        invariant
            i <= extra@.len(),
            views(out@) == append_new(base, views(extra@).take(i as int)),
        decreases extra@.len() - i,
    {
        assert(views(extra@).take(i + 1).drop_last() =~= views(extra@).take(i as int));
        assert(views(extra@).take(i + 1).last() == extra@[i as int]@);
        if !contains_string(out, extra[i].as_str()) {
            out.push(crate::text::clone_string(&extra[i]));
            assert(views(out@) =~= append_new(base, views(extra@).take(i as int)).push(extra@[i as int]@));
        }
        i = i + 1;
    }
    assert(views(extra@).take(extra@.len() as int) =~= views(extra@));
}

pub open spec fn home_root(vars: EnvVars, key: Seq<char>, home: Option<Seq<char>>, suffix: Seq<char>) -> Seq<Seq<char>> {
    match vars.get_spec(key) {
        Some(v) => seq![v],
        None => match home {
            Some(h) => seq![h + suffix],
            None => Seq::empty(),
        },
    }
}

pub open spec fn config_roots_spec(vars: EnvVars, home: Option<Seq<char>>) -> Seq<Seq<char>> {
    append_new(
        home_root(vars, "XDG_CONFIG_HOME"@, home, "/.config"@),
        colon_list(vars.get_spec("XDG_CONFIG_DIRS"@), seq!["/etc/xdg"@]),
    )
}

pub open spec fn data_roots_spec(vars: EnvVars, home: Option<Seq<char>>) -> Seq<Seq<char>> {
    append_new(
        home_root(vars, "XDG_DATA_HOME"@, home, "/.local/share"@),
        colon_list(vars.get_spec("XDG_DATA_DIRS"@), seq!["/usr/local/share"@, "/usr/share"@]),
    )
}

fn first_root(vars: &EnvVars, key: &str, home: Option<&str>, suffix: &str) -> (r: Vec<String>)
    ensures
        views(r@) == home_root(
            *vars,
            key@,
            match home {
                Some(h) => Some(h@),
                None => None,
            },
            suffix@,
        ),
{
    let mut out: Vec<String> = Vec::new();
    match vars.get_cloned(key) {
        Some(v) => {
            out.push(v);
        },
        None => match home {
            Some(h) => {
                out.push(concat2(h, suffix));
            },
            None => {},
        },
    }
    assert(views(out@) =~= home_root(
        *vars,
        key@,
        match home {
            Some(h) => Some(h@),
            None => None,
        },
        suffix@,
    ));
    out
}

/// Effective XDG search roots in precedence order. Defaults follow the XDG
/// base directory specification; `home` feeds only those defaults.
pub fn search_roots(vars: &EnvVars, home: Option<&str>) -> (r: SearchRoots)
    ensures
        views(r.config_roots@) == config_roots_spec(
            *vars,
            match home {
                Some(h) => Some(h@),
                None => None,
            },
        ),
        views(r.data_roots@) == data_roots_spec(
            *vars,
            match home {
                Some(h) => Some(h@),
                None => None,
            },
        ),
{
    let mut config_roots = first_root(vars, "XDG_CONFIG_HOME", home, "/.config");
    let config_defaults: Vec<&'static str> = vec!["/etc/xdg"];
    assert(config_defaults@.map_values(|s: &'static str| s@) =~= seq!["/etc/xdg"@]);
    let config_dirs = colon_list_or_default(vars.get("XDG_CONFIG_DIRS"), &config_defaults);
    push_new(&mut config_roots, config_dirs);

    let mut data_roots = first_root(vars, "XDG_DATA_HOME", home, "/.local/share");
    let data_defaults: Vec<&'static str> = vec!["/usr/local/share", "/usr/share"];
    assert(data_defaults@.map_values(|s: &'static str| s@) =~= seq![
        "/usr/local/share"@,
        "/usr/share"@,
    ]);
    let data_dirs = colon_list_or_default(vars.get("XDG_DATA_DIRS"), &data_defaults);
    push_new(&mut data_roots, data_dirs);
    SearchRoots { config_roots, data_roots }
}

/// The relation between a process value and an activation value.
pub open spec fn relation_of(p: Option<Seq<char>>, a: Option<Seq<char>>) -> Option<EnvironmentRelation> {
    match (p, a) {
        (Some(x), Some(y)) => if x == y {
            Some(EnvironmentRelation::Equal)
        } else {
            Some(EnvironmentRelation::Different)
        },
        (Some(_), None) => Some(EnvironmentRelation::MissingActivation),
        (None, Some(_)) => Some(EnvironmentRelation::MissingProcess),
        (None, None) => None,
    }
}

/// The comparable content of one comparison entry.
pub open spec fn value_view(v: EnvironmentValue) -> (Seq<char>, Option<Seq<char>>, Option<Seq<char>>, EnvironmentRelation) {
    (v.key@, opt_view(v.process_value), opt_view(v.activation_value), v.relation)
}

/// One entry per key present on either side, in key order.
pub open spec fn comparison_entries(keys: Seq<Seq<char>>, process: EnvVars, activation: EnvVars) -> Seq<(Seq<char>, Option<Seq<char>>, Option<Seq<char>>, EnvironmentRelation)>
    decreases keys.len(),
{
    if keys.len() == 0 {
        Seq::empty()
    } else {
        let prev = comparison_entries(keys.drop_last(), process, activation);
        let k = keys.last();
        let p = process.get_spec(k);
        let a = activation.get_spec(k);
        match relation_of(p, a) {
            Some(rel) => prev.push((k, p, a, rel)),
            None => prev,
        }
    }
}

/// Compare the two environments over the comparison keys. Without an
/// activation map nothing is compared (`performed == false`).
pub fn compare_environments(process: &EnvVars, activation: Option<&EnvVars>) -> (r: EnvironmentComparison)
    ensures
        r.performed == activation is Some,
        activation is None ==> r.entries@.len() == 0,
        activation matches Some(a) ==> r.entries@.map_values(|v: EnvironmentValue| value_view(v))
            == comparison_entries(comparison_keys(), *process, *a),
{
    let activation = match activation {
        Some(a) => a,
        None => {
            return EnvironmentComparison { performed: false, entries: Vec::new() };
        },
    };
    let keys = comparison_key_list();
    let ghost kv = keys@.map_values(|s: &'static str| s@);
    let mut entries: Vec<EnvironmentValue> = Vec::new();
    let mut i: usize = 0;
    while i < keys.len()
        invariant
            kv == keys@.map_values(|s: &'static str| s@),
            i <= keys@.len(),
            entries@.map_values(|v: EnvironmentValue| value_view(v)) == comparison_entries(
                kv.take(i as int),
                *process,
                *activation,
            ),
        decreases keys@.len() - i,
    {
        let key = keys[i];
        assert(kv.take(i + 1).drop_last() =~= kv.take(i as int));
        assert(kv.take(i + 1).last() == key@);
        let process_value = process.get_cloned(key);
        let activation_value = activation.get_cloned(key);
        let relation = match (&process_value, &activation_value) {
            (Some(p), Some(a)) => if crate::text::eq_str(p.as_str(), a.as_str()) {
                Some(EnvironmentRelation::Equal)
            } else {
                Some(EnvironmentRelation::Different)
            },
            (Some(_), None) => Some(EnvironmentRelation::MissingActivation),
            (None, Some(_)) => Some(EnvironmentRelation::MissingProcess),
            (None, None) => None,
        };
        match relation {
            Some(relation) => {
                let ghost before = entries@.map_values(|v: EnvironmentValue| value_view(v));
                let value = EnvironmentValue { key: key.to_owned(), process_value, activation_value, relation };
                entries.push(value);
                assert(entries@.map_values(|v: EnvironmentValue| value_view(v)) =~= before.push(
                    value_view(value),
                ));
            },
            None => {},
        }
        i = i + 1;
    }
    assert(kv.take(i as int) =~= comparison_keys());
    EnvironmentComparison { performed: true, entries }
}

/// Assemble the environment section data from collected parts.
pub fn environment_info(process: EnvVars, home: Option<&str>, activation: Option<&EnvVars>) -> (r: EnvironmentInfo)
    ensures
        r.process == process,
        views(r.search_roots.config_roots@) == config_roots_spec(
            process,
            match home {
                Some(h) => Some(h@),
                None => None,
            },
        ),
        views(r.search_roots.data_roots@) == data_roots_spec(
            process,
            match home {
                Some(h) => Some(h@),
                None => None,
            },
        ),
        r.activation_comparison.performed == activation is Some,
        activation is None ==> r.activation_comparison.entries@.len() == 0,
        activation matches Some(a) ==> r.activation_comparison.entries@.map_values(
            |v: EnvironmentValue| value_view(v),
        ) == comparison_entries(comparison_keys(), process, *a),
{
    let search_roots = search_roots(&process, home);
    let activation_comparison = compare_environments(&process, activation);
    EnvironmentInfo { process, search_roots, activation_comparison }
}

} // verus!
