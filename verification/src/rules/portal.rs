//! XDP003–XDP005 and CFG001–CFG004: backend discovery and configuration.
use vstd::prelude::*;
use crate::model::evidence::Evidence;
use crate::model::finding::{Confidence, Finding, Severity};
use crate::model::portal::{PortalBackend, PortalPreference, PortalRoute, RouteStatus};
use crate::model::snapshot::Snapshot;
use crate::rules::common::{finding_complete, finding_texts, lemma_texts_not_empty, build_finding, one_evidence, one_finding, one_string};
use crate::rules::engine::DiagnosticRule;
use crate::text::{
    append, clone_string, concat3, contains_string, decimal, ends_with, ends_with_str, eq_str,
    insert_sorted, join, join_strings, opt_view, push_decimal, sorted_strict, split_on, split_seq,
    trimmed_tokens, trim_str, views,
};

verus! {

/// The shape every portal finding shares.
pub open spec fn portal_finding_shape(f: Finding, id: Seq<char>, severity: Severity, confidence: Confidence, evidence: Evidence) -> bool {
    &&& f.id@ == id
    &&& f.severity == severity
    &&& f.confidence == confidence
    &&& f.explanation@.len() == 0
    &&& f.evidence@ == seq![evidence]
    &&& f.impact is None
    &&& f.recommendation@.len() == 1
    &&& f.source_component@ == "portal"@
}

fn portal_finding(
    id: &str,
    severity: Severity,
    confidence: Confidence,
    title: &str,
    summary: String,
    evidence: Evidence,
    recommendation: &str,
) -> (f: Finding)
    ensures
        portal_finding_shape(f, id@, severity, confidence, evidence),
        f.title@ == title@,
        f.summary@ == summary@,
        f.recommendation@[0]@ == recommendation@,
        finding_texts(f, title@, ""@, None, seq![recommendation@]),
{
    let f = build_finding(
        id,
        severity,
        confidence,
        title,
        summary,
        "",
        one_evidence(evidence),
        None,
        one_string(recommendation),
        "portal",
    );
    proof {
        reveal_strlit("");
    }
    f
}

/// Current desktop names from `XDG_CURRENT_DESKTOP` (colon-separated,
/// trimmed, empty names dropped).
pub open spec fn desktops_spec(s: Snapshot) -> Seq<Seq<char>> {
    match s.session.value {
        Some(session) => match session.current_desktop {
            Some(raw) => trimmed_tokens(split_seq(raw@, seq![':'])),
            None => Seq::empty(),
        },
        None => Seq::empty(),
    }
}

pub fn desktop_names(raw: &str) -> (r: Vec<String>)
    ensures
        views(r@) == trimmed_tokens(split_seq(raw@, seq![':'])),
{
    let colon: [char; 1] = [':'];
    let parts = split_on(raw, &colon);
    assert(colon@ =~= seq![':']);
    let mut out: Vec<String> = Vec::new();
    let mut i: usize = 0;
    while i < parts.len()
        invariant
            i <= parts@.len(),
            views(out@) == trimmed_tokens(views(parts@).take(i as int)),
        decreases parts@.len() - i,
    {
        let t = trim_str(parts[i].as_str());
        assert(views(parts@).take(i + 1).drop_last() =~= views(parts@).take(i as int));
        assert(views(parts@).take(i + 1).last() == parts@[i as int]@);
        if !t.as_str().is_empty() {
            let ghost before = views(out@);
            out.push(t);
            assert(views(out@) =~= before.push(t@));
        }
        i = i + 1;
    }
    assert(views(parts@).take(i as int) =~= views(parts@));
    out
}

fn desktops(snapshot: &Snapshot) -> (r: Vec<String>)
    ensures
        views(r@) == desktops_spec(*snapshot),
{
    match &snapshot.session.value {
        Some(session) => match &session.current_desktop {
            Some(raw) => desktop_names(raw.as_str()),
            None => {
                let v: Vec<String> = Vec::new();
                assert(views(v@) =~= Seq::<Seq<char>>::empty());
                v
            },
        },
        None => {
            let v: Vec<String> = Vec::new();
            assert(views(v@) =~= Seq::<Seq<char>>::empty());
            v
        },
    }
}

pub open spec fn configured(prefs: Seq<PortalPreference>, iface: Seq<char>) -> bool {
    exists|i: int| 0 <= i < prefs.len() && (#[trigger] prefs[i]).interface@ == iface
}

fn is_configured(prefs: &Vec<PortalPreference>, iface: &str) -> (r: bool)
    ensures
        r == configured(prefs@, iface@),
{
    let mut i: usize = 0;
    while i < prefs.len()
        invariant
            i <= prefs@.len(),
            forall|k: int| 0 <= k < i ==> (#[trigger] prefs@[k]).interface@ != iface@,
        decreases prefs@.len() - i,
    {
        if eq_str(prefs[i].interface.as_str(), iface) {
            return true;
        }
        i = i + 1;
    }
    false
}

/// XDP003 — no portal backend definitions discovered.
pub struct Xdp003;

pub open spec fn xdp003_fires(s: Snapshot) -> bool {
    s.portal_backends.value matches Some(b) && b@.len() == 0
}

/// What `Xdp003::evaluate` returns for a snapshot.
pub open spec fn xdp003_output(s: Snapshot, r: Seq<Finding>) -> bool {
    &&& r.len() == if xdp003_fires(s) { 1int } else { 0int }
    &&& xdp003_fires(s) ==> portal_finding_shape(r[0], "XDP003"@, Severity::Warning, Confidence::High, Evidence::MissingProvider)
    &&& forall|i: int| 0 <= i < r.len() ==> finding_texts(#[trigger] r[i], "No portal backend definitions discovered"@, ""@, None, seq!["Verify the portal backend packages (e.g. xdg-desktop-portal-gnome) are installed."@])
    &&& forall|i: int| 0 <= i < r.len() ==> r[i].summary@ == "No `.portal` backend descriptors were found in any effective `XDG` data root."@
}

/// Every XDP003 finding is complete.
pub proof fn lemma_xdp003_complete(s: Snapshot, r: Seq<Finding>)
    requires
        xdp003_output(s, r),
    ensures
        forall|i: int| 0 <= i < r.len() ==> finding_complete(#[trigger] r[i]),
{
    reveal_strlit("XDP003");
    reveal_strlit("No portal backend definitions discovered");
    reveal_strlit("");
    reveal_strlit("Verify the portal backend packages (e.g. xdg-desktop-portal-gnome) are installed.");
    reveal_strlit("No `.portal` backend descriptors were found in any effective `XDG` data root.");
    reveal_strlit("portal");
    assert forall|i: int| 0 <= i < r.len() implies finding_complete(#[trigger] r[i]) by {
        lemma_texts_not_empty(r[i], "No portal backend definitions discovered"@, ""@, None, seq!["Verify the portal backend packages (e.g. xdg-desktop-portal-gnome) are installed."@]);
    }
}

impl DiagnosticRule for Xdp003 {
    fn id(&self) -> (r: &'static str)
        ensures
            r@ == "XDP003"@,
    {
        "XDP003"
    }

    fn evaluate(&self, snapshot: &Snapshot) -> (r: Vec<Finding>)
        ensures
            xdp003_output(*snapshot, r@),
    {
        let backends = match &snapshot.portal_backends.value {
            Some(b) => b,
            None => return Vec::new(),
        };
        if backends.len() > 0 {
            return Vec::new();
        }
        one_finding(portal_finding(
            "XDP003",
            Severity::Warning,
            Confidence::High,
            "No portal backend definitions discovered",
            "No `.portal` backend descriptors were found in any effective `XDG` data root.".to_owned(),
            Evidence::MissingProvider,
            "Verify the portal backend packages (e.g. xdg-desktop-portal-gnome) are installed.",
        ))
    }
}

/// Routes for which XDP004 fires: not disabled, no usable backend, and
/// named by the configuration.
pub open spec fn xdp004_routes(routes: Seq<PortalRoute>, prefs: Seq<PortalPreference>) -> Seq<PortalRoute>
    decreases routes.len(),
{
    if routes.len() == 0 {
        Seq::empty()
    } else {
        let prev = xdp004_routes(routes.drop_last(), prefs);
        let r = routes.last();
        if r.status != RouteStatus::Disabled && r.available_candidates@.len() == 0 && configured(prefs, r.interface@) {
            prev.push(r)
        } else {
            prev
        }
    }
}

pub open spec fn xdp004_summary(iface: Seq<char>) -> Seq<char> {
    "Interface "@ + iface + " is configured, but no discovered backend implements it in this desktop context."@
}

/// XDP004 — requested interface has no usable implementation.
pub struct Xdp004;

/// What `Xdp004::evaluate` returns for a snapshot.
pub open spec fn xdp004_output(s: Snapshot, r: Seq<Finding>) -> bool {
    &&& match (s.portal_routes.value, s.portal_config.value) {
            (Some(routes), Some(config)) => {
                let sel = xdp004_routes(routes@, config.preferences@);
                &&& r.len() == sel.len()
                &&& forall|i: int| 0 <= i < r.len() ==> portal_finding_shape(#[trigger] r[i], "XDP004"@, Severity::Warning, Confidence::High, Evidence::MissingProvider)
                    && r[i].summary@ == xdp004_summary(sel[i].interface@)
            },
            _ => r.len() == 0,
        }
    &&& forall|i: int| 0 <= i < r.len() ==> finding_texts(#[trigger] r[i], "Requested interface has no usable implementation"@, ""@, None, seq!["Install a backend that provides this interface, or remove the [preferred] entry for it."@])
}

/// Every XDP004 finding is complete.
pub proof fn lemma_xdp004_complete(s: Snapshot, r: Seq<Finding>)
    requires
        xdp004_output(s, r),
    ensures
        forall|i: int| 0 <= i < r.len() ==> finding_complete(#[trigger] r[i]),
{
    reveal_strlit("XDP004");
    reveal_strlit("Requested interface has no usable implementation");
    reveal_strlit("");
    reveal_strlit("Install a backend that provides this interface, or remove the [preferred] entry for it.");
    reveal_strlit("Interface ");
    reveal_strlit(" is configured, but no discovered backend implements it in this desktop context.");
    reveal_strlit("portal");
    assert forall|i: int| 0 <= i < r.len() implies finding_complete(#[trigger] r[i]) by {
        lemma_texts_not_empty(r[i], "Requested interface has no usable implementation"@, ""@, None, seq!["Install a backend that provides this interface, or remove the [preferred] entry for it."@]);
    }
}

impl DiagnosticRule for Xdp004 {
    fn id(&self) -> (r: &'static str)
        ensures
            r@ == "XDP004"@,
    {
        "XDP004"
    }

    fn evaluate(&self, snapshot: &Snapshot) -> (r: Vec<Finding>)
        ensures
            xdp004_output(*snapshot, r@),
    {
        let (routes, config) = match (&snapshot.portal_routes.value, &snapshot.portal_config.value) {
            (Some(r), Some(c)) => (r, c),
            _ => return Vec::new(),
        };
        let mut out: Vec<Finding> = Vec::new();
        let mut i: usize = 0;
        while i < routes.len()
            invariant
                i <= routes@.len(),
                out@.len() == xdp004_routes(routes@.take(i as int), config.preferences@).len(),
                forall|k: int| 0 <= k < out@.len() ==> portal_finding_shape(#[trigger] out@[k], "XDP004"@, Severity::Warning, Confidence::High, Evidence::MissingProvider)
                    && out@[k].summary@ == xdp004_summary(xdp004_routes(routes@.take(i as int), config.preferences@)[k].interface@),
                forall|k: int| 0 <= k < out@.len() ==> finding_texts(#[trigger] out@[k], "Requested interface has no usable implementation"@, ""@, None, seq!["Install a backend that provides this interface, or remove the [preferred] entry for it."@]),
            decreases routes@.len() - i,
        {
            let route = &routes[i];
            assert(routes@.take(i + 1).drop_last() =~= routes@.take(i as int));
            assert(routes@.take(i + 1).last() == *route);
            if route.status != RouteStatus::Disabled && route.available_candidates.len() == 0
                && is_configured(&config.preferences, route.interface.as_str()) {
                let summary = concat3("Interface ", route.interface.as_str(), " is configured, but no discovered backend implements it in this desktop context.");
                out.push(portal_finding(
                    "XDP004",
                    Severity::Warning,
                    Confidence::High,
                    "Requested interface has no usable implementation",
                    summary,
                    Evidence::MissingProvider,
                    "Install a backend that provides this interface, or remove the [preferred] entry for it.",
                ));
            }
            i = i + 1;
        }
        assert(routes@.take(i as int) =~= routes@);
        out
    }
}

/// Whether `id` names a discovered backend.
pub open spec fn known_backend(backends: Seq<PortalBackend>, id: Seq<char>) -> bool {
    exists|i: int| 0 <= i < backends.len() && (#[trigger] backends[i]).id@ == id
}

/// A configured backend token that names no discovered backend.
pub open spec fn missing_backend(prefs: Seq<PortalPreference>, backends: Seq<PortalBackend>, t: Seq<char>) -> bool {
    &&& t != "*"@
    &&& t != "none"@
    &&& !known_backend(backends, t)
    &&& exists|i: int, j: int| 0 <= i < prefs.len() && 0 <= j < prefs[i].backends@.len() && (#[trigger] prefs[i].backends@[j])@ == t
}

fn is_known_backend(backends: &Vec<PortalBackend>, id: &str) -> (r: bool)
    ensures
        r == known_backend(backends@, id@),
{
    let mut i: usize = 0;
    while i < backends.len()
        invariant
            i <= backends@.len(),
            forall|k: int| 0 <= k < i ==> (#[trigger] backends@[k]).id@ != id@,
        decreases backends@.len() - i,
    {
        if eq_str(backends[i].id.as_str(), id) {
            return true;
        }
        i = i + 1;
    }
    false
}

/// XDP005 — configuration references an unavailable backend.
pub struct Xdp005;

/// What `Xdp005::evaluate` returns for a snapshot.
pub open spec fn xdp005_output(s: Snapshot, r: Seq<Finding>) -> bool {
    &&& match (s.portal_config.value, s.portal_backends.value) {
            (Some(config), Some(backends)) => {
                let fires = exists|t: Seq<char>| missing_backend(config.preferences@, backends@, t);
                &&& r.len() == if fires { 1int } else { 0int }
                &&& fires ==> portal_finding_shape(r[0], "XDP005"@, Severity::Warning, Confidence::High, Evidence::ConfigSelection)
                &&& fires ==> exists|u: Seq<Seq<char>>| {
                    &&& sorted_strict(u)
                    &&& (forall|t: Seq<char>| #[trigger] u.contains(t) <==> missing_backend(config.preferences@, backends@, t))
                    &&& r[0].summary@ == "The selected `portals.conf` references backend(s) with no discovered descriptor: "@ + join(u, ", "@) + "."@
                }
            },
            _ => r.len() == 0,
        }
    &&& forall|i: int| 0 <= i < r.len() ==> finding_texts(#[trigger] r[i], "Configuration references an unavailable backend"@, ""@, None, seq!["Install the referenced backend package or fix the [preferred] entry."@])
}

/// Every XDP005 finding is complete.
pub proof fn lemma_xdp005_complete(s: Snapshot, r: Seq<Finding>)
    requires
        xdp005_output(s, r),
    ensures
        forall|i: int| 0 <= i < r.len() ==> finding_complete(#[trigger] r[i]),
{
    reveal_strlit("XDP005");
    reveal_strlit("The selected `portals.conf` references backend(s) with no discovered descriptor: ");
    reveal_strlit(", ");
    reveal_strlit(".");
    reveal_strlit("Configuration references an unavailable backend");
    reveal_strlit("");
    reveal_strlit("Install the referenced backend package or fix the [preferred] entry.");
    reveal_strlit("portal");
    assert forall|i: int| 0 <= i < r.len() implies finding_complete(#[trigger] r[i]) by {
        lemma_texts_not_empty(r[i], "Configuration references an unavailable backend"@, ""@, None, seq!["Install the referenced backend package or fix the [preferred] entry."@]);
    }
}

impl DiagnosticRule for Xdp005 {
    fn id(&self) -> (r: &'static str)
        ensures
            r@ == "XDP005"@,
    {
        "XDP005"
    }

    #[verifier::loop_isolation(false)]
    fn evaluate(&self, snapshot: &Snapshot) -> (r: Vec<Finding>)
        ensures
            xdp005_output(*snapshot, r@),
    {
        let (config, backends) = match (&snapshot.portal_config.value, &snapshot.portal_backends.value) {
            (Some(c), Some(b)) => (c, b),
            _ => return Vec::new(),
        };
        let prefs = &config.preferences;
        let mut unique: Vec<String> = Vec::new();
        let mut i: usize = 0;
        while i < prefs.len()
            invariant
                i <= prefs@.len(),
                sorted_strict(views(unique@)),
                forall|t: Seq<char>| #[trigger] views(unique@).contains(t) <==> (t != "*"@ && t != "none"@ && !known_backend(backends@, t)
                    && exists|a: int, b: int| 0 <= a < i && 0 <= b < prefs@[a].backends@.len() && (#[trigger] prefs@[a].backends@[b])@ == t),
            decreases prefs@.len() - i,
        {
            let tokens = &prefs[i].backends;
            let mut j: usize = 0;
            while j < tokens.len()
                invariant
                    i < prefs@.len(),
                    *tokens == prefs@[i as int].backends,
                    j <= tokens@.len(),
                    sorted_strict(views(unique@)),
                    forall|t: Seq<char>| #[trigger] views(unique@).contains(t) <==> (t != "*"@ && t != "none"@ && !known_backend(backends@, t)
                        && ((exists|a: int, b: int| 0 <= a < i && 0 <= b < prefs@[a].backends@.len() && (#[trigger] prefs@[a].backends@[b])@ == t)
                            || exists|b: int| 0 <= b < j && (#[trigger] tokens@[b])@ == t)),
                decreases tokens@.len() - j,
            {
                let token = tokens[j].as_str();
                if !eq_str(token, "*") && !eq_str(token, "none") && !is_known_backend(backends, token) {
                    insert_sorted(&mut unique, token);
                }
                proof {
                    assert forall|t: Seq<char>| #[trigger] views(unique@).contains(t) <==> (t != "*"@ && t != "none"@ && !known_backend(backends@, t)
                        && ((exists|a: int, b: int| 0 <= a < i && 0 <= b < prefs@[a].backends@.len() && (#[trigger] prefs@[a].backends@[b])@ == t)
                            || exists|b: int| 0 <= b < j + 1 && (#[trigger] tokens@[b])@ == t)) by {
                        if exists|b: int| 0 <= b < j + 1 && (#[trigger] tokens@[b])@ == t {
                            let b = choose|b: int| 0 <= b < j + 1 && (#[trigger] tokens@[b])@ == t;
                            if b < j {
                            }
                        }
                    }
                }
                j = j + 1;
            }
            proof {
                assert forall|t: Seq<char>| #[trigger] views(unique@).contains(t) <==> (t != "*"@ && t != "none"@ && !known_backend(backends@, t)
                    && exists|a: int, b: int| 0 <= a < i + 1 && 0 <= b < prefs@[a].backends@.len() && (#[trigger] prefs@[a].backends@[b])@ == t) by {
                    if exists|a: int, b: int| 0 <= a < i + 1 && 0 <= b < prefs@[a].backends@.len() && (#[trigger] prefs@[a].backends@[b])@ == t {
                        let (a, b) = choose|a: int, b: int| 0 <= a < i + 1 && 0 <= b < prefs@[a].backends@.len() && (#[trigger] prefs@[a].backends@[b])@ == t;
                        if a == i {
                            assert(tokens@[b]@ == t);
                        }
                    }
                    if exists|b: int| 0 <= b < j && (#[trigger] tokens@[b])@ == t {
                        let b = choose|b: int| 0 <= b < j && (#[trigger] tokens@[b])@ == t;
                        assert(prefs@[i as int].backends@[b]@ == t);
                    }
                }
            }
            i = i + 1;
        }
        if unique.len() == 0 {
            assert forall|t: Seq<char>| !missing_backend(prefs@, backends@, t) by {
                if missing_backend(prefs@, backends@, t) {
                    assert(views(unique@).contains(t));
                }
            }
            return Vec::new();
        }
        assert(views(unique@).contains(views(unique@)[0])) by {
            assert(views(unique@)[0] == views(unique@)[0]);
        }
        assert(missing_backend(prefs@, backends@, views(unique@)[0]));
        let joined = join_strings(&unique, ", ");
        let summary = concat3("The selected `portals.conf` references backend(s) with no discovered descriptor: ", joined.as_str(), ".");
        let f = portal_finding(
            "XDP005",
            Severity::Warning,
            Confidence::High,
            "Configuration references an unavailable backend",
            summary,
            Evidence::ConfigSelection,
            "Install the referenced backend package or fix the [preferred] entry.",
        );
        assert(views(unique@).contains(views(unique@)[0]));
        one_finding(f)
    }
}

/// CFG001 — expected desktop-specific portal configuration not found.
/// A selected file whose name ends in `portals.conf` counts as generic.
pub struct Cfg001;

pub open spec fn cfg001_fires(s: Snapshot) -> bool {
    &&& desktops_spec(s).len() > 0
    &&& s.portal_config.value matches Some(config)
    &&& !(config.selected_file matches Some(f) && !ends_with(f@, "portals.conf"@))
}

/// What `Cfg001::evaluate` returns for a snapshot.
pub open spec fn cfg001_output(s: Snapshot, r: Seq<Finding>) -> bool {
    &&& r.len() == if cfg001_fires(s) { 1int } else { 0int }
    &&& cfg001_fires(s) ==> {
            let severity = if s.portal_config.value.unwrap().selected_file is Some { Severity::Info } else { Severity::Warning };
            &&& portal_finding_shape(r[0], "CFG001"@, severity, Confidence::High, Evidence::ConfigSelection)
            &&& r[0].summary@ == "No `<desktop>-portals.conf` was found for "@ + join(desktops_spec(s), ", "@) + "."@
        }
    &&& forall|i: int| 0 <= i < r.len() ==> finding_texts(#[trigger] r[i], "Desktop-specific portal configuration not found"@, ""@, None, seq!["Create a desktop-specific config or accept the generic/default routing."@])
}

/// Every CFG001 finding is complete.
pub proof fn lemma_cfg001_complete(s: Snapshot, r: Seq<Finding>)
    requires
        cfg001_output(s, r),
    ensures
        forall|i: int| 0 <= i < r.len() ==> finding_complete(#[trigger] r[i]),
{
    reveal_strlit("CFG001");
    reveal_strlit("No `<desktop>-portals.conf` was found for ");
    reveal_strlit(", ");
    reveal_strlit(".");
    reveal_strlit("Desktop-specific portal configuration not found");
    reveal_strlit("");
    reveal_strlit("Create a desktop-specific config or accept the generic/default routing.");
    reveal_strlit("portal");
    assert forall|i: int| 0 <= i < r.len() implies finding_complete(#[trigger] r[i]) by {
        lemma_texts_not_empty(r[i], "Desktop-specific portal configuration not found"@, ""@, None, seq!["Create a desktop-specific config or accept the generic/default routing."@]);
    }
}

impl DiagnosticRule for Cfg001 {
    fn id(&self) -> (r: &'static str)
        ensures
            r@ == "CFG001"@,
    {
        "CFG001"
    }

    fn evaluate(&self, snapshot: &Snapshot) -> (r: Vec<Finding>)
        ensures
            cfg001_output(*snapshot, r@),
    {
        let names = desktops(snapshot);
        let config = match &snapshot.portal_config.value {
            Some(c) => c,
            None => return Vec::new(),
        };
        if names.len() == 0 {
            return Vec::new();
        }
        let has_desktop_specific = match &config.selected_file {
            Some(f) => !ends_with_str(f.as_str(), "portals.conf"),
            None => false,
        };
        if has_desktop_specific {
            return Vec::new();
        }
        let severity = match &config.selected_file {
            Some(_) => Severity::Info,
            None => Severity::Warning,
        };
        let joined = join_strings(&names, ", ");
        let summary = concat3("No `<desktop>-portals.conf` was found for ", joined.as_str(), ".");
        one_finding(portal_finding(
            "CFG001",
            severity,
            Confidence::High,
            "Desktop-specific portal configuration not found",
            summary,
            Evidence::ConfigSelection,
            "Create a desktop-specific config or accept the generic/default routing.",
        ))
    }
}

/// CFG002 — portal configuration parse error.
pub struct Cfg002;

pub open spec fn cfg002_fires(s: Snapshot) -> bool {
    s.portal_config.value matches Some(config) && config.parse_errors@.len() > 0
}

/// What `Cfg002::evaluate` returns for a snapshot.
pub open spec fn cfg002_output(s: Snapshot, r: Seq<Finding>) -> bool {
    &&& r.len() == if cfg002_fires(s) { 1int } else { 0int }
    &&& cfg002_fires(s) ==> {
            let config = s.portal_config.value.unwrap();
            &&& portal_finding_shape(r[0], "CFG002"@, Severity::Warning, Confidence::High, Evidence::ConfigSelection)
            &&& r[0].summary@ == "`"@ + match config.selected_file {
                Some(f) => f@,
                None => "<no config file>"@,
            } + "` contains malformed lines: "@ + join(views(config.parse_errors@), "; "@) + "."@
        }
    &&& forall|i: int| 0 <= i < r.len() ==> finding_texts(#[trigger] r[i], "Portal configuration parse error"@, ""@, None, seq!["Fix or remove the malformed lines in the config file."@])
}

/// Every CFG002 finding is complete.
pub proof fn lemma_cfg002_complete(s: Snapshot, r: Seq<Finding>)
    requires
        cfg002_output(s, r),
    ensures
        forall|i: int| 0 <= i < r.len() ==> finding_complete(#[trigger] r[i]),
{
    reveal_strlit("CFG002");
    reveal_strlit("`");
    reveal_strlit("<no config file>");
    reveal_strlit("` contains malformed lines: ");
    reveal_strlit("; ");
    reveal_strlit(".");
    reveal_strlit("Portal configuration parse error");
    reveal_strlit("");
    reveal_strlit("Fix or remove the malformed lines in the config file.");
    reveal_strlit("portal");
    assert forall|i: int| 0 <= i < r.len() implies finding_complete(#[trigger] r[i]) by {
        lemma_texts_not_empty(r[i], "Portal configuration parse error"@, ""@, None, seq!["Fix or remove the malformed lines in the config file."@]);
    }
}

impl DiagnosticRule for Cfg002 {
    fn id(&self) -> (r: &'static str)
        ensures
            r@ == "CFG002"@,
    {
        "CFG002"
    }

    fn evaluate(&self, snapshot: &Snapshot) -> (r: Vec<Finding>)
        ensures
            cfg002_output(*snapshot, r@),
    {
        let config = match &snapshot.portal_config.value {
            Some(c) => c,
            None => return Vec::new(),
        };
        if config.parse_errors.len() == 0 {
            return Vec::new();
        }
        let mut summary = "`".to_owned();
        match &config.selected_file {
            Some(f) => append(&mut summary, f.as_str()),
            None => append(&mut summary, "<no config file>"),
        }
        append(&mut summary, "` contains malformed lines: ");
        let joined = join_strings(&config.parse_errors, "; ");
        append(&mut summary, joined.as_str());
        append(&mut summary, ".");
        one_finding(portal_finding(
            "CFG002",
            Severity::Warning,
            Confidence::High,
            "Portal configuration parse error",
            summary,
            Evidence::ConfigSelection,
            "Fix or remove the malformed lines in the config file.",
        ))
    }
}

/// Routes for which CFG003 fires: configured, with usable backends, none of
/// the requested ones selected, and no `*`/`none` token.
pub open spec fn cfg003_routes(routes: Seq<PortalRoute>, prefs: Seq<PortalPreference>) -> Seq<PortalRoute>
    decreases routes.len(),
{
    if routes.len() == 0 {
        Seq::empty()
    } else {
        let prev = cfg003_routes(routes.drop_last(), prefs);
        let r = routes.last();
        let req = views(r.requested_candidates@);
        if (r.selected_candidates@.len() > 0 || r.status == RouteStatus::NoProvider)
            && configured(prefs, r.interface@)
            && r.available_candidates@.len() > 0
            && r.selected_candidates@.len() == 0
            && !req.contains("*"@) && !req.contains("none"@) {
            prev.push(r)
        } else {
            prev
        }
    }
}

pub open spec fn cfg003_summary(r: PortalRoute) -> Seq<char> {
    "Interface "@ + r.interface@ + " is configured for ["@ + join(views(r.requested_candidates@), ", "@) + "], but none of those backends declares it."@
}

/// CFG003 — selected backend does not provide the requested interface.
pub struct Cfg003;

/// What `Cfg003::evaluate` returns for a snapshot.
pub open spec fn cfg003_output(s: Snapshot, r: Seq<Finding>) -> bool {
    &&& match (s.portal_routes.value, s.portal_config.value) {
            (Some(routes), Some(config)) => {
                let sel = cfg003_routes(routes@, config.preferences@);
                &&& r.len() == sel.len()
                &&& forall|i: int| 0 <= i < r.len() ==> portal_finding_shape(#[trigger] r[i], "CFG003"@, Severity::Warning, Confidence::High, Evidence::ConfigSelection)
                    && r[i].summary@ == cfg003_summary(sel[i])
            },
            _ => r.len() == 0,
        }
    &&& forall|i: int| 0 <= i < r.len() ==> finding_texts(#[trigger] r[i], "Selected backend does not provide requested interface"@, ""@, None, seq!["Point the [preferred] entry at a backend that implements the interface."@])
}

/// Every CFG003 finding is complete.
pub proof fn lemma_cfg003_complete(s: Snapshot, r: Seq<Finding>)
    requires
        cfg003_output(s, r),
    ensures
        forall|i: int| 0 <= i < r.len() ==> finding_complete(#[trigger] r[i]),
{
    reveal_strlit("CFG003");
    reveal_strlit("Selected backend does not provide requested interface");
    reveal_strlit("");
    reveal_strlit("Point the [preferred] entry at a backend that implements the interface.");
    reveal_strlit("Interface ");
    reveal_strlit(" is configured for [");
    reveal_strlit(", ");
    reveal_strlit("], but none of those backends declares it.");
    reveal_strlit("portal");
    assert forall|i: int| 0 <= i < r.len() implies finding_complete(#[trigger] r[i]) by {
        lemma_texts_not_empty(r[i], "Selected backend does not provide requested interface"@, ""@, None, seq!["Point the [preferred] entry at a backend that implements the interface."@]);
    }
}

impl DiagnosticRule for Cfg003 {
    fn id(&self) -> (r: &'static str)
        ensures
            r@ == "CFG003"@,
    {
        "CFG003"
    }

    fn evaluate(&self, snapshot: &Snapshot) -> (r: Vec<Finding>)
        ensures
            cfg003_output(*snapshot, r@),
    {
        let (routes, config) = match (&snapshot.portal_routes.value, &snapshot.portal_config.value) {
            (Some(r), Some(c)) => (r, c),
            _ => return Vec::new(),
        };
        let mut out: Vec<Finding> = Vec::new();
        let mut i: usize = 0;
        while i < routes.len()
            invariant
                i <= routes@.len(),
                out@.len() == cfg003_routes(routes@.take(i as int), config.preferences@).len(),
                forall|k: int| 0 <= k < out@.len() ==> portal_finding_shape(#[trigger] out@[k], "CFG003"@, Severity::Warning, Confidence::High, Evidence::ConfigSelection)
                    && out@[k].summary@ == cfg003_summary(cfg003_routes(routes@.take(i as int), config.preferences@)[k]),
                forall|k: int| 0 <= k < out@.len() ==> finding_texts(#[trigger] out@[k], "Selected backend does not provide requested interface"@, ""@, None, seq!["Point the [preferred] entry at a backend that implements the interface."@]),
            decreases routes@.len() - i,
        {
            let route = &routes[i];
            assert(routes@.take(i + 1).drop_last() =~= routes@.take(i as int));
            assert(routes@.take(i + 1).last() == *route);
            if (route.selected_candidates.len() > 0 || route.status == RouteStatus::NoProvider)
                && is_configured(&config.preferences, route.interface.as_str())
                && route.available_candidates.len() > 0
                && route.selected_candidates.len() == 0
                && !contains_string(&route.requested_candidates, "*")
                && !contains_string(&route.requested_candidates, "none") {
                let mut summary = concat3("Interface ", route.interface.as_str(), " is configured for [");
                let joined = join_strings(&route.requested_candidates, ", ");
                append(&mut summary, joined.as_str());
                append(&mut summary, "], but none of those backends declares it.");
                out.push(portal_finding(
                    "CFG003",
                    Severity::Warning,
                    Confidence::High,
                    "Selected backend does not provide requested interface",
                    summary,
                    Evidence::ConfigSelection,
                    "Point the [preferred] entry at a backend that implements the interface.",
                ));
            }
            i = i + 1;
        }
        assert(routes@.take(i as int) =~= routes@);
        out
    }
}

/// Routes for which CFG004 fires: several usable backends and no
/// preference pinning the choice.
pub open spec fn cfg004_routes(routes: Seq<PortalRoute>, prefs: Seq<PortalPreference>) -> Seq<PortalRoute>
    decreases routes.len(),
{
    if routes.len() == 0 {
        Seq::empty()
    } else {
        let prev = cfg004_routes(routes.drop_last(), prefs);
        let r = routes.last();
        if !configured(prefs, r.interface@) && r.available_candidates@.len() > 1 {
            prev.push(r)
        } else {
            prev
        }
    }
}

pub open spec fn cfg004_summary(r: PortalRoute) -> Seq<char> {
    "Interface "@ + r.interface@ + " has "@ + decimal(r.available_candidates@.len()) + " available backends ("@
        + join(views(r.available_candidates@), ", "@) + ") and no [preferred] entry; upstream chooses one arbitrarily."@
}

/// CFG004 — suspicious multi-provider resolution.
pub struct Cfg004;

/// What `Cfg004::evaluate` returns for a snapshot.
pub open spec fn cfg004_output(s: Snapshot, r: Seq<Finding>) -> bool {
    &&& match (s.portal_routes.value, s.portal_config.value) {
            (Some(routes), Some(config)) => {
                let sel = cfg004_routes(routes@, config.preferences@);
                &&& r.len() == sel.len()
                &&& forall|i: int| 0 <= i < r.len() ==> portal_finding_shape(#[trigger] r[i], "CFG004"@, Severity::Info, Confidence::Low, Evidence::ConfigSelection)
                    && r[i].summary@ == cfg004_summary(sel[i])
            },
            _ => r.len() == 0,
        }
    &&& forall|i: int| 0 <= i < r.len() ==> finding_texts(#[trigger] r[i], "Suspicious multi-provider resolution"@, ""@, None, seq!["Add a [preferred] entry to make the selection deterministic."@])
}

/// Every CFG004 finding is complete.
pub proof fn lemma_cfg004_complete(s: Snapshot, r: Seq<Finding>)
    requires
        cfg004_output(s, r),
    ensures
        forall|i: int| 0 <= i < r.len() ==> finding_complete(#[trigger] r[i]),
{
    reveal_strlit("CFG004");
    reveal_strlit("Suspicious multi-provider resolution");
    reveal_strlit("");
    reveal_strlit("Add a [preferred] entry to make the selection deterministic.");
    reveal_strlit("Interface ");
    reveal_strlit(" has ");
    reveal_strlit(" available backends (");
    reveal_strlit(", ");
    reveal_strlit(") and no [preferred] entry; upstream chooses one arbitrarily.");
    reveal_strlit("portal");
    assert forall|i: int| 0 <= i < r.len() implies finding_complete(#[trigger] r[i]) by {
        lemma_texts_not_empty(r[i], "Suspicious multi-provider resolution"@, ""@, None, seq!["Add a [preferred] entry to make the selection deterministic."@]);
    }
}

impl DiagnosticRule for Cfg004 {
    fn id(&self) -> (r: &'static str)
        ensures
            r@ == "CFG004"@,
    {
        "CFG004"
    }

    fn evaluate(&self, snapshot: &Snapshot) -> (r: Vec<Finding>)
        ensures
            cfg004_output(*snapshot, r@),
    {
        let (routes, config) = match (&snapshot.portal_routes.value, &snapshot.portal_config.value) {
            (Some(r), Some(c)) => (r, c),
            _ => return Vec::new(),
        };
        let mut out: Vec<Finding> = Vec::new();
        let mut i: usize = 0;
        while i < routes.len()
            invariant
                i <= routes@.len(),
                out@.len() == cfg004_routes(routes@.take(i as int), config.preferences@).len(),
                forall|k: int| 0 <= k < out@.len() ==> portal_finding_shape(#[trigger] out@[k], "CFG004"@, Severity::Info, Confidence::Low, Evidence::ConfigSelection)
                    && out@[k].summary@ == cfg004_summary(cfg004_routes(routes@.take(i as int), config.preferences@)[k]),
                forall|k: int| 0 <= k < out@.len() ==> finding_texts(#[trigger] out@[k], "Suspicious multi-provider resolution"@, ""@, None, seq!["Add a [preferred] entry to make the selection deterministic."@]),
            decreases routes@.len() - i,
        {
            let route = &routes[i];
            assert(routes@.take(i + 1).drop_last() =~= routes@.take(i as int));
            assert(routes@.take(i + 1).last() == *route);
            if !is_configured(&config.preferences, route.interface.as_str()) && route.available_candidates.len() > 1 {
                let mut summary = concat3("Interface ", route.interface.as_str(), " has ");
                push_decimal(&mut summary, route.available_candidates.len() as u64);
                append(&mut summary, " available backends (");
                let joined = join_strings(&route.available_candidates, ", ");
                append(&mut summary, joined.as_str());
                append(&mut summary, ") and no [preferred] entry; upstream chooses one arbitrarily.");
                out.push(portal_finding(
                    "CFG004",
                    Severity::Info,
                    Confidence::Low,
                    "Suspicious multi-provider resolution",
                    summary,
                    Evidence::ConfigSelection,
                    "Add a [preferred] entry to make the selection deterministic.",
                ));
            }
            i = i + 1;
        }
        assert(routes@.take(i as int) =~= routes@);
        out
    }
}

} // verus!
