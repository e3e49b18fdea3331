//! Route resolution: which backends serve each portal interface.
use vstd::prelude::*;
use crate::model::portal::{PortalBackend, PortalConfigInfo, PortalPreference, PortalRoute, RouteEvidence, RouteStatus};
use crate::text::{
    append, clone_string, clone_strings, contains_string, decimal, eq_ignore_ascii_case, eq_str,
    insert_sorted, join, join_strings, lower, push_decimal, sorted_strict, split_on, split_seq,
    to_ascii_lowercase, trim_str, trimmed_tokens, views,
};

verus! {

/// Index of the preference that governs `iface`: the last entry naming it
/// (later entries override earlier ones), or -1.
pub open spec fn pref_index(prefs: Seq<PortalPreference>, iface: Seq<char>) -> int
    decreases prefs.len(),
{
    if prefs.len() == 0 {
        -1
    } else if prefs.last().interface@ == iface {
        prefs.len() - 1
    } else {
        pref_index(prefs.drop_last(), iface)
    }
}

/// Whether a backend serves this desktop: no `UseIn` restriction, a `*`
/// wildcard, or an ASCII case-insensitive match with a current desktop name.
pub open spec fn use_in_ok(b: PortalBackend, desktops: Seq<Seq<char>>) -> bool {
    let u = views(b.legacy_use_in@);
    ||| u.len() == 0
    ||| u.contains("*"@)
    ||| exists|i: int, j: int| 0 <= i < desktops.len() && 0 <= j < u.len() && lower(#[trigger] u[j]) == lower(#[trigger] desktops[i])
}

/// Backends that implement `iface` and serve this desktop, in order.
pub open spec fn usable(backends: Seq<PortalBackend>, iface: Seq<char>, desktops: Seq<Seq<char>>) -> Seq<PortalBackend>
    decreases backends.len(),
{
    if backends.len() == 0 {
        Seq::empty()
    } else {
        let prev = usable(backends.drop_last(), iface, desktops);
        let b = backends.last();
        if b.implements(iface) && use_in_ok(b, desktops) {
            prev.push(b)
        } else {
            prev
        }
    }
}

/// Backends that implement `iface` but are excluded by `UseIn`, in order.
pub open spec fn excluded(backends: Seq<PortalBackend>, iface: Seq<char>, desktops: Seq<Seq<char>>) -> Seq<PortalBackend>
    decreases backends.len(),
{
    if backends.len() == 0 {
        Seq::empty()
    } else {
        let prev = excluded(backends.drop_last(), iface, desktops);
        let b = backends.last();
        if b.implements(iface) && !use_in_ok(b, desktops) {
            prev.push(b)
        } else {
            prev
        }
    }
}

pub open spec fn ids(bs: Seq<PortalBackend>) -> Seq<Seq<char>> {
    bs.map_values(|b: PortalBackend| b.id@)
}

/// Requested tokens that name a usable backend, in request order.
pub open spec fn keep_known(requested: Seq<Seq<char>>, known: Seq<Seq<char>>) -> Seq<Seq<char>>
    decreases requested.len(),
{
    if requested.len() == 0 {
        Seq::empty()
    } else {
        let prev = keep_known(requested.drop_last(), known);
        if known.contains(requested.last()) {
            prev.push(requested.last())
        } else {
            prev
        }
    }
}

pub open spec fn status_for(empty: bool) -> RouteStatus {
    if empty {
        RouteStatus::NoProvider
    } else {
        RouteStatus::Selected
    }
}

/// `none` disables a configured interface; `*` or no preference selects
/// every usable backend; otherwise the requested backends that are usable.
pub open spec fn selection(requested: Seq<Seq<char>>, usable_ids: Seq<Seq<char>>, has_pref: bool) -> (Seq<Seq<char>>, RouteStatus) {
    if has_pref && requested.contains("none"@) {
        (Seq::empty(), RouteStatus::Disabled)
    } else if requested.contains("*"@) || !has_pref {
        (usable_ids, status_for(usable_ids.len() == 0))
    } else {
        let sel = keep_known(requested, usable_ids);
        (sel, status_for(sel.len() == 0))
    }
}

pub open spec fn preference_message(p: Option<PortalPreference>) -> Seq<char> {
    match p {
        Some(p) => "preferred entry from "@ + p.source_file@ + " (priority "@ + decimal(p.source_priority as nat) + "): "@ + join(views(p.backends@), ", "@),
        None => "no [preferred] entry; default to any available backend"@,
    }
}

pub open spec fn implements_message(b: PortalBackend, iface: Seq<char>) -> Seq<char> {
    "backend "@ + b.id@ + " from "@ + b.descriptor_path@ + " implements "@ + iface
}

pub open spec fn excluded_message(b: PortalBackend) -> Seq<char> {
    "backend "@ + b.id@ + " excluded by UseIn (allowed: "@ + join(views(b.legacy_use_in@), ", "@) + ")"@
}

pub open spec fn governing_pref(prefs: Seq<PortalPreference>, iface: Seq<char>) -> Option<PortalPreference> {
    let i = pref_index(prefs, iface);
    if i < 0 {
        None
    } else {
        Some(prefs[i])
    }
}

/// The provenance of a route, in order: the preference, each usable
/// backend, each backend excluded by `UseIn`.
pub open spec fn evidence_spec(iface: Seq<char>, desktops: Seq<Seq<char>>, prefs: Seq<PortalPreference>, backends: Seq<PortalBackend>) -> Seq<Seq<char>> {
    seq![preference_message(governing_pref(prefs, iface))]
        + usable(backends, iface, desktops).map_values(|b: PortalBackend| implements_message(b, iface))
        + excluded(backends, iface, desktops).map_values(|b: PortalBackend| excluded_message(b))
}

/// What the route for `iface` must be.
pub open spec fn route_ok(r: PortalRoute, iface: Seq<char>, desktops: Seq<Seq<char>>, prefs: Seq<PortalPreference>, backends: Seq<PortalBackend>) -> bool {
    let pref = governing_pref(prefs, iface);
    let requested = match pref {
        Some(p) => views(p.backends@),
        None => Seq::empty(),
    };
    let usable_ids = ids(usable(backends, iface, desktops));
    let sel = selection(requested, usable_ids, pref is Some);
    &&& r.interface@ == iface
    &&& views(r.requested_candidates@) == requested
    &&& views(r.available_candidates@) == usable_ids
    &&& views(r.selected_candidates@) == sel.0
    &&& r.status == sel.1
    &&& r.evidence@.map_values(|e: RouteEvidence| e.message@) == evidence_spec(iface, desktops, prefs, backends)
}

pub open spec fn route_interfaces(r: Seq<PortalRoute>) -> Seq<Seq<char>> {
    r.map_values(|x: PortalRoute| x.interface@)
}

/// An interface is known when a backend implements it or a preference
/// names it.
pub open spec fn known_interface(x: Seq<char>, config: PortalConfigInfo, backends: Seq<PortalBackend>) -> bool {
    ||| exists|i: int| 0 <= i < backends.len() && (#[trigger] backends[i]).implements(x)
    ||| exists|i: int| 0 <= i < config.preferences@.len() && (#[trigger] config.preferences@[i]).interface@ == x
}

#[verifier::loop_isolation(false)]
fn use_in_matches(backend: &PortalBackend, desktops: &Vec<String>) -> (r: bool)
    ensures
        r == use_in_ok(*backend, views(desktops@)),
{
    let u = &backend.legacy_use_in;
    if u.len() == 0 {
        return true;
    }
    if contains_string(u, "*") {
        return true;
    }
    let ghost uv = views(u@);
    let ghost dv = views(desktops@);
    let mut i: usize = 0;
    while i < desktops.len()
        invariant
            uv == views(u@),
            dv == views(desktops@),
            !uv.contains("*"@),
            uv.len() > 0,
            i <= desktops@.len(),
            forall|a: int, b: int| 0 <= a < i && 0 <= b < uv.len() ==> lower(#[trigger] uv[b]) != lower(#[trigger] dv[a]),
        decreases desktops@.len() - i,
    {
        let mut j: usize = 0;
        while j < u.len()
            invariant
                uv == views(u@),
                dv == views(desktops@),
                i < desktops@.len(),
                j <= u@.len(),
                forall|a: int, b: int| 0 <= a < i && 0 <= b < uv.len() ==> lower(#[trigger] uv[b]) != lower(#[trigger] dv[a]),
                forall|b: int| 0 <= b < j ==> lower(#[trigger] uv[b]) != lower(dv[i as int]),
            decreases u@.len() - j,
        {
            if eq_ignore_ascii_case(u[j].as_str(), desktops[i].as_str()) {
                assert(lower(uv[j as int]) == lower(dv[i as int]));
                assert(exists|a: int, b: int| 0 <= a < dv.len() && 0 <= b < uv.len() && lower(#[trigger] uv[b]) == lower(#[trigger] dv[a]));
                return true;
            }
            j = j + 1;
        }
        i = i + 1;
    }
    false
}

fn governing_preference(prefs: &Vec<PortalPreference>, iface: &str) -> (r: Option<usize>)
    ensures
        match r {
            Some(i) => pref_index(prefs@, iface@) == i && i < prefs@.len(),
            None => pref_index(prefs@, iface@) < 0,
        },
{
    let mut i: usize = prefs.len();
    assert(prefs@.take(i as int) =~= prefs@);
    while i > 0
        invariant
            i <= prefs@.len(),
            pref_index(prefs@, iface@) == pref_index(prefs@.take(i as int), iface@),
        decreases i,
    {
        assert(prefs@.take(i as int).drop_last() =~= prefs@.take(i - 1));
        assert(prefs@.take(i as int).last() == prefs@[i - 1]);
        if eq_str(prefs[i - 1].interface.as_str(), iface) {
            return Some(i - 1);
        }
        i = i - 1;
    }
    None
}

fn preference_evidence(pref: Option<&PortalPreference>) -> (r: String)
    ensures
        r@ == preference_message(match pref {
            Some(p) => Some(*p),
            None => None,
        }),
{
    match pref {
        Some(p) => {
            let mut s = "preferred entry from ".to_owned();
            append(&mut s, p.source_file.as_str());
            append(&mut s, " (priority ");
            push_decimal(&mut s, p.source_priority as u64);
            append(&mut s, "): ");
            let listed = join_strings(&p.backends, ", ");
            append(&mut s, listed.as_str());
            s
        },
        None => "no [preferred] entry; default to any available backend".to_owned(),
    }
}

fn keep_requested(requested: &Vec<String>, known: &Vec<String>) -> (r: Vec<String>)
    ensures
        views(r@) == keep_known(views(requested@), views(known@)),
{
    let mut out: Vec<String> = Vec::new();
    let mut i: usize = 0;
    while i < requested.len()
        invariant
            i <= requested@.len(),
            views(out@) == keep_known(views(requested@).take(i as int), views(known@)),
        decreases requested@.len() - i,
    {
        assert(views(requested@).take(i + 1).drop_last() =~= views(requested@).take(i as int));
        assert(views(requested@).take(i + 1).last() == requested@[i as int]@);
        if contains_string(known, requested[i].as_str()) {
            let ghost before = views(out@);
            out.push(clone_string(&requested[i]));
            assert(views(out@) =~= before.push(requested@[i as int]@));
        }
        i = i + 1;
    }
    assert(views(requested@).take(i as int) =~= views(requested@));
    out
}

fn select_candidates(requested: &Vec<String>, usable_ids: &Vec<String>, has_preference: bool) -> (r: (Vec<String>, RouteStatus))
    ensures
        (views(r.0@), r.1) == selection(views(requested@), views(usable_ids@), has_preference),
{
    if has_preference && contains_string(requested, "none") {
        let empty: Vec<String> = Vec::new();
        assert(views(empty@) =~= Seq::<Seq<char>>::empty());
        return (empty, RouteStatus::Disabled);
    }
    if contains_string(requested, "*") || !has_preference {
        let selected = clone_strings(usable_ids);
        let status = if selected.len() == 0 { RouteStatus::NoProvider } else { RouteStatus::Selected };
        return (selected, status);
    }
    let selected = keep_requested(requested, usable_ids);
    let status = if selected.len() == 0 { RouteStatus::NoProvider } else { RouteStatus::Selected };
    (selected, status)
}

#[verifier::rlimit(50)]
fn resolve_interface(interface: &str, desktops: &Vec<String>, prefs: &Vec<PortalPreference>, backends: &Vec<PortalBackend>) -> (r: PortalRoute)
    ensures
        route_ok(r, interface@, views(desktops@), prefs@, backends@),
{
    let ghost dv = views(desktops@);
    let pref_at = governing_preference(prefs, interface);
    let pref: Option<&PortalPreference> = match pref_at {
        Some(i) => Some(&prefs[i]),
        None => None,
    };
    let mut evidence: Vec<RouteEvidence> = Vec::new();
    evidence.push(RouteEvidence { message: preference_evidence(pref) });
    let mut usable_ids: Vec<String> = Vec::new();
    let mut i: usize = 0;
    while i < backends.len()
        invariant
            dv == views(desktops@),
            i <= backends@.len(),
            views(usable_ids@) == ids(usable(backends@.take(i as int), interface@, dv)),
            evidence@.map_values(|e: RouteEvidence| e.message@) == seq![preference_message(governing_pref(prefs@, interface@))]
                + usable(backends@.take(i as int), interface@, dv).map_values(|b: PortalBackend| implements_message(b, interface@)),
        decreases backends@.len() - i,
    {
        let b = &backends[i];
        assert(backends@.take(i + 1).drop_last() =~= backends@.take(i as int));
        assert(backends@.take(i + 1).last() == *b);
        if b.has_interface(interface) && use_in_matches(b, desktops) {
            let ghost ub = views(usable_ids@);
            let ghost eb = evidence@.map_values(|e: RouteEvidence| e.message@);
            usable_ids.push(clone_string(&b.id));
            assert(views(usable_ids@) =~= ub.push(b.id@));
            let mut m = "backend ".to_owned();
            append(&mut m, b.id.as_str());
            append(&mut m, " from ");
            append(&mut m, b.descriptor_path.as_str());
            append(&mut m, " implements ");
            append(&mut m, interface);
            evidence.push(RouteEvidence { message: m });
            assert(evidence@.map_values(|e: RouteEvidence| e.message@) =~= eb.push(implements_message(*b, interface@)));
        }
        i = i + 1;
    }
    assert(backends@.take(i as int) =~= backends@);
    let ghost head = evidence@.map_values(|e: RouteEvidence| e.message@);
    let mut j: usize = 0;
    while j < backends.len()
        invariant
            dv == views(desktops@),
            j <= backends@.len(),
            evidence@.map_values(|e: RouteEvidence| e.message@) == head
                + excluded(backends@.take(j as int), interface@, dv).map_values(|b: PortalBackend| excluded_message(b)),
        decreases backends@.len() - j,
    {
        let b = &backends[j];
        assert(backends@.take(j + 1).drop_last() =~= backends@.take(j as int));
        assert(backends@.take(j + 1).last() == *b);
        if b.has_interface(interface) && !use_in_matches(b, desktops) {
            let ghost eb = evidence@.map_values(|e: RouteEvidence| e.message@);
            let mut m = "backend ".to_owned();
            append(&mut m, b.id.as_str());
            append(&mut m, " excluded by UseIn (allowed: ");
            let allowed = join_strings(&b.legacy_use_in, ", ");
            append(&mut m, allowed.as_str());
            append(&mut m, ")");
            evidence.push(RouteEvidence { message: m });
            assert(evidence@.map_values(|e: RouteEvidence| e.message@) =~= eb.push(excluded_message(*b)));
            assert(excluded(backends@.take(j + 1), interface@, dv).map_values(|b: PortalBackend| excluded_message(b))
                =~= excluded(backends@.take(j as int), interface@, dv).map_values(|b: PortalBackend| excluded_message(b)).push(excluded_message(*b)));
        }
        j = j + 1;
    }
    assert(backends@.take(j as int) =~= backends@);
    let requested: Vec<String> = match pref {
        Some(p) => clone_strings(&p.backends),
        None => Vec::new(),
    };
    assert(pref is None ==> views(requested@) =~= Seq::<Seq<char>>::empty());
    let (selected, status) = select_candidates(&requested, &usable_ids, pref.is_some());
    PortalRoute {
        interface: interface.to_owned(),
        requested_candidates: requested,
        available_candidates: usable_ids,
        selected_candidates: selected,
        evidence,
        status,
    }
}

proof fn lemma_keep_known_subset(requested: Seq<Seq<char>>, known: Seq<Seq<char>>)
    ensures
        forall|x: Seq<char>| #[trigger] keep_known(requested, known).contains(x) ==> known.contains(x),
    decreases requested.len(),
{
    if requested.len() > 0 {
        lemma_keep_known_subset(requested.drop_last(), known);
        let prev = keep_known(requested.drop_last(), known);
        assert forall|x: Seq<char>| #[trigger] keep_known(requested, known).contains(x) implies known.contains(x) by {
            if known.contains(requested.last()) {
                let k = choose|k: int| 0 <= k < prev.len() + 1 && prev.push(requested.last())[k] == x;
                if k < prev.len() {
                    assert(prev[k] == x);
                    assert(prev.contains(x));
                } else {
                    assert(x == requested.last());
                }
            } else {
                assert(prev.contains(x));
            }
        }
    }
}

/// A route only ever selects backends that are available for it, and it is
/// `Selected` exactly when it selects at least one.
pub proof fn law_selected_backends_are_available(
    r: PortalRoute,
    iface: Seq<char>,
    desktops: Seq<Seq<char>>,
    prefs: Seq<PortalPreference>,
    backends: Seq<PortalBackend>,
)
    requires
        route_ok(r, iface, desktops, prefs, backends),
    ensures
        forall|x: Seq<char>| #[trigger] views(r.selected_candidates@).contains(x) ==> views(r.available_candidates@).contains(x),
        r.status == RouteStatus::Selected <==> r.selected_candidates@.len() > 0,
{
    let pref = governing_pref(prefs, iface);
    let requested = match pref {
        Some(p) => views(p.backends@),
        None => Seq::empty(),
    };
    lemma_keep_known_subset(requested, ids(usable(backends, iface, desktops)));
    assert(views(r.selected_candidates@).len() == r.selected_candidates@.len());
}

/// Resolve the route table for every known portal interface: the union of
/// interfaces implemented by discovered backends and interfaces named by
/// configuration, in sorted order.
pub fn resolve_routes(desktops: &Vec<String>, config: &PortalConfigInfo, backends: &Vec<PortalBackend>) -> (r: Vec<PortalRoute>)
    ensures
        sorted_strict(route_interfaces(r@)),
        forall|x: Seq<char>| #[trigger] route_interfaces(r@).contains(x) <==> known_interface(x, *config, backends@),
        forall|i: int| 0 <= i < r@.len() ==> route_ok(#[trigger] r@[i], r@[i].interface@, views(desktops@), config.preferences@, backends@),
{
    let mut interfaces: Vec<String> = Vec::new();
    let mut i: usize = 0;
    while i < backends.len()
        invariant
            i <= backends@.len(),
            sorted_strict(views(interfaces@)),
            forall|x: Seq<char>| #[trigger] views(interfaces@).contains(x) <==> exists|k: int| 0 <= k < i && (#[trigger] backends@[k]).implements(x),
        decreases backends@.len() - i,
    {
        let b = &backends[i];
        let mut j: usize = 0;
        while j < b.interfaces.len()
            invariant
                i < backends@.len(),
                *b == backends@[i as int],
                j <= b.interfaces@.len(),
                sorted_strict(views(interfaces@)),
                forall|x: Seq<char>| #[trigger] views(interfaces@).contains(x) <==> (exists|k: int| 0 <= k < i && (#[trigger] backends@[k]).implements(x))
                    || views(b.interfaces@).take(j as int).contains(x),
            decreases b.interfaces@.len() - j,
        {
            insert_sorted(&mut interfaces, b.interfaces[j].as_str());
            proof {
                let t = views(b.interfaces@);
                let t1 = t.take(j + 1);
                let t0 = t.take(j as int);
                assert forall|x: Seq<char>| #[trigger] t1.contains(x) <==> (t0.contains(x) || x == t[j as int]) by {
                    if t1.contains(x) {
                        let k = choose|k: int| 0 <= k < t1.len() && t1[k] == x;
                        if k < j {
                            assert(t0[k] == x);
                        }
                    }
                    if t0.contains(x) {
                        let k = choose|k: int| 0 <= k < t0.len() && t0[k] == x;
                        assert(t1[k] == x);
                    }
                    if x == t[j as int] {
                        assert(t1[j as int] == x);
                    }
                }
            }
            j = j + 1;
        }
        proof {
            assert(views(b.interfaces@).take(j as int) =~= views(b.interfaces@));
            assert forall|x: Seq<char>| #[trigger] views(interfaces@).contains(x) <==> exists|k: int| 0 <= k < i + 1 && (#[trigger] backends@[k]).implements(x) by {
                if views(b.interfaces@).contains(x) {
                    assert(backends@[i as int].implements(x));
                }
                if exists|k: int| 0 <= k < i + 1 && (#[trigger] backends@[k]).implements(x) {
                    let k = choose|k: int| 0 <= k < i + 1 && (#[trigger] backends@[k]).implements(x);
                    if k == i {
                        assert(views(b.interfaces@).contains(x));
                    }
                }
            }
        }
        i = i + 1;
    }
    let prefs = &config.preferences;
    let mut p: usize = 0;
    while p < prefs.len()
        invariant
            p <= prefs@.len(),
            *prefs == config.preferences,
            sorted_strict(views(interfaces@)),
            forall|x: Seq<char>| #[trigger] views(interfaces@).contains(x) <==> (exists|k: int| 0 <= k < backends@.len() && (#[trigger] backends@[k]).implements(x))
                || exists|k: int| 0 <= k < p && (#[trigger] prefs@[k]).interface@ == x,
        decreases prefs@.len() - p,
    {
        insert_sorted(&mut interfaces, prefs[p].interface.as_str());
        proof {
            assert forall|x: Seq<char>| #[trigger] views(interfaces@).contains(x) <==> (exists|k: int| 0 <= k < backends@.len() && (#[trigger] backends@[k]).implements(x))
                || exists|k: int| 0 <= k < p + 1 && (#[trigger] prefs@[k]).interface@ == x by {
                if exists|k: int| 0 <= k < p + 1 && (#[trigger] prefs@[k]).interface@ == x {
                    let k = choose|k: int| 0 <= k < p + 1 && (#[trigger] prefs@[k]).interface@ == x;
                    if k < p {
                    }
                }
            }
        }
        p = p + 1;
    }
    let mut routes: Vec<PortalRoute> = Vec::new();
    let mut k: usize = 0;
    while k < interfaces.len()
        invariant
            k <= interfaces@.len(),
            routes@.len() == k,
            forall|a: int| 0 <= a < k ==> (#[trigger] routes@[a]).interface@ == interfaces@[a]@,
            forall|a: int| 0 <= a < k ==> route_ok(#[trigger] routes@[a], routes@[a].interface@, views(desktops@), config.preferences@, backends@),
        decreases interfaces@.len() - k,
    {
        let route = resolve_interface(interfaces[k].as_str(), desktops, &config.preferences, backends);
        routes.push(route);
        k = k + 1;
    }
    assert(route_interfaces(routes@) =~= views(interfaces@));
    routes
}

/// The `portals.conf` key whose backends apply to every interface without
/// an entry of its own.
pub const DEFAULT_INTERFACE: &'static str = "default";

/// Desktop names from a colon-separated `XDG_CURRENT_DESKTOP`: trimmed,
/// empty names dropped, ASCII-lowercased.
pub open spec fn normalized_desktops(raw: Seq<char>) -> Seq<Seq<char>> {
    trimmed_tokens(split_seq(raw, seq![':'])).map_values(|t: Seq<char>| lower(t))
}

pub fn normalize_desktops(raw: &str) -> (r: Vec<String>)
    ensures
        views(r@) == normalized_desktops(raw@),
{
    let colon: [char; 1] = [':'];
    let parts = split_on(raw, &colon);
    assert(colon@ =~= seq![':']);
    let mut out: Vec<String> = Vec::new();
    let mut i: usize = 0;
    while i < parts.len()
        invariant
            i <= parts@.len(),
            views(out@) == trimmed_tokens(views(parts@).take(i as int)).map_values(|t: Seq<char>| lower(t)),
        decreases parts@.len() - i,
    {
        let t = trim_str(parts[i].as_str());
        assert(views(parts@).take(i + 1).drop_last() =~= views(parts@).take(i as int));
        assert(views(parts@).take(i + 1).last() == parts@[i as int]@);
        if !t.as_str().is_empty() {
            let ghost before = views(out@);
            let l = to_ascii_lowercase(t.as_str());
            out.push(l);
            assert(views(out@) =~= before.push(l@));
            assert(trimmed_tokens(views(parts@).take(i + 1)) == trimmed_tokens(views(parts@).take(i as int)).push(t@));
            assert(views(out@) =~= trimmed_tokens(views(parts@).take(i + 1)).map_values(|t: Seq<char>| lower(t)));
        }
        i = i + 1;
    }
    assert(views(parts@).take(i as int) =~= views(parts@));
    out
}

} // verus!
