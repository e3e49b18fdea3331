//! XDP006: a narrowly scoped frontend/Niri Settings compatibility risk.
use vstd::prelude::*;
use crate::model::evidence::Evidence;
use crate::model::finding::{Confidence, Finding, Severity};
use crate::model::portal::{PortalBackend, PortalConfigCandidate, PortalPreference, RouteStatus};
use crate::model::portal_frontend::{SemanticVersion, PORTAL_FRONTEND_COMPONENT};
use crate::model::snapshot::Snapshot;
use crate::model::status::CollectorState;
use crate::resolver::portal_routes::{normalize_desktops, normalized_desktops, DEFAULT_INTERFACE};
use crate::rules::common::{finding_complete, finding_texts, lemma_texts_not_empty, one_finding, one_string};
use crate::rules::engine::DiagnosticRule;
use crate::text::{concat3, contains_string, eq_str, lower, to_ascii_lowercase, trim, trim_str, views};

verus! {

/// The Settings backend interface.
pub const SETTINGS_INTERFACE: &'static str = "org.freedesktop.impl.portal.Settings";

pub const GNOME_BACKEND: &'static str = "gnome";

pub const GTK_BACKEND: &'static str = "gtk";

pub const NIRI_DESKTOP: &'static str = "niri";

/// The frontend release the upstream report concerns.
pub open spec fn affected_frontend_version() -> SemanticVersion {
    SemanticVersion { major: 1, minor: 22, patch: 0 }
}

/// The preferences for `iface`, in order.
pub open spec fn prefs_for_spec(prefs: Seq<PortalPreference>, iface: Seq<char>) -> Seq<PortalPreference> {
    prefs.filter(|p: PortalPreference| p.interface@ == iface)
}

fn prefs_for<'a>(prefs: &'a Vec<PortalPreference>, iface: &str) -> (r: Vec<&'a PortalPreference>)
    ensures
        r@.len() == prefs_for_spec(prefs@, iface@).len(),
        forall|k: int| 0 <= k < r@.len() ==> #[trigger] r@[k] == prefs_for_spec(prefs@, iface@)[k],
{
    let mut out: Vec<&PortalPreference> = Vec::new();
    let mut i: usize = 0;
    while i < prefs.len()
        invariant
            i <= prefs@.len(),
            out@.len() == prefs_for_spec(prefs@.take(i as int), iface@).len(),
            forall|k: int| 0 <= k < out@.len() ==> #[trigger] out@[k] == prefs_for_spec(prefs@.take(i as int), iface@)[k],
        decreases prefs@.len() - i,
    {
        let p = &prefs[i];
        proof {
            reveal(Seq::filter);
        }
        assert(prefs@.take(i + 1).drop_last() =~= prefs@.take(i as int));
        if eq_str(p.interface.as_str(), iface) {
            out.push(p);
        }
        i = i + 1;
    }
    assert(prefs@.take(i as int) =~= prefs@);
    out
}

/// The first backend called `id`.
pub open spec fn first_backend(backends: Seq<PortalBackend>, id: Seq<char>) -> Option<PortalBackend>
    decreases backends.len(),
{
    if backends.len() == 0 {
        None
    } else if backends[0].id@ == id {
        Some(backends[0])
    } else {
        first_backend(backends.drop_first(), id)
    }
}

fn find_backend<'a>(backends: &'a Vec<PortalBackend>, id: &str) -> (r: Option<&'a PortalBackend>)
    ensures
        match (r, first_backend(backends@, id@)) {
            (Some(a), Some(b)) => *a == b,
            (None, None) => true,
            _ => false,
        },
{
    let mut i: usize = 0;
    assert(backends@.subrange(0, backends@.len() as int) =~= backends@);
    while i < backends.len()
        invariant
            i <= backends@.len(),
            first_backend(backends@, id@) == first_backend(backends@.subrange(i as int, backends@.len() as int), id@),
        decreases backends@.len() - i,
    {
        let b = &backends[i];
        let ghost rest = backends@.subrange(i as int, backends@.len() as int);
        assert(rest[0] == *b);
        if eq_str(b.id.as_str(), id) {
            assert(first_backend(rest, id@) == Some(rest[0]));
            return Some(b);
        }
        assert(rest.drop_first() =~= backends@.subrange(i + 1, backends@.len() as int));
        i = i + 1;
    }
    None
}

/// The session is exactly Niri: one current desktop, `niri`, and a
/// `niri` session desktop (compared trimmed and ASCII-lowercased).
pub open spec fn canonical_niri(s: Snapshot) -> bool {
    &&& s.session.value matches Some(session)
    &&& session.current_desktop matches Some(d) && normalized_desktops(d@) == seq![NIRI_DESKTOP@]
    &&& session.session_desktop matches Some(sd) && lower(trim(sd@)) == NIRI_DESKTOP@
}

fn is_canonical_niri(snapshot: &Snapshot) -> (r: bool)
    ensures
        r == canonical_niri(*snapshot),
{
    let session = match &snapshot.session.value {
        Some(s) => s,
        None => return false,
    };
    let current_ok = match &session.current_desktop {
        Some(d) => {
            let desktops = normalize_desktops(d.as_str());
            let ok = desktops.len() == 1 && eq_str(desktops[0].as_str(), NIRI_DESKTOP);
            proof {
                assert(views(desktops@).len() == desktops@.len());
                if desktops@.len() == 1 {
                    assert(views(desktops@)[0] == desktops@[0]@);
                    if ok {
                        assert(views(desktops@) =~= seq![NIRI_DESKTOP@]);
                    }
                }
            }
            ok
        },
        None => false,
    };
    let session_ok = match &session.session_desktop {
        Some(sd) => {
            let t = trim_str(sd.as_str());
            let l = to_ascii_lowercase(t.as_str());
            eq_str(l.as_str(), NIRI_DESKTOP)
        },
        None => false,
    };
    current_ok && session_ok
}

/// The selected file routes Settings explicitly, and only, to GTK, and
/// the resolved Settings route selected exactly GTK.
pub open spec fn effective_settings_override(s: Snapshot) -> bool {
    &&& s.portal_config.value matches Some(config)
    &&& config.selected_file matches Some(f)
    &&& config.parse_errors@.len() == 0
    &&& {
        let settings = prefs_for_spec(config.preferences@, SETTINGS_INTERFACE@);
        &&& settings.len() == 1
        &&& settings[0].source_file@ == f@
        &&& settings[0].backends@.len() == 1
        &&& settings[0].backends@[0]@ == GTK_BACKEND@
    }
    &&& s.portal_routes.value matches Some(routes)
    &&& exists|i: int| 0 <= i < routes@.len() && {
        let route = #[trigger] routes@[i];
        &&& route.interface@ == SETTINGS_INTERFACE@
        &&& route.status == RouteStatus::Selected
        &&& route.selected_candidates@.len() == 1
        &&& route.selected_candidates@[0]@ == GTK_BACKEND@
    }
}

#[verifier::loop_isolation(false)]
fn has_effective_settings_override(snapshot: &Snapshot) -> (r: bool)
    ensures
        r == effective_settings_override(*snapshot),
{
    let config = match &snapshot.portal_config.value {
        Some(c) => c,
        None => return false,
    };
    let selected_file = match &config.selected_file {
        Some(f) => f,
        None => return false,
    };
    if config.parse_errors.len() != 0 {
        return false;
    }
    let settings = prefs_for(&config.preferences, SETTINGS_INTERFACE);
    if settings.len() != 1 {
        return false;
    }
    let preference = settings[0];
    if !eq_str(preference.source_file.as_str(), selected_file.as_str()) || preference.backends.len() != 1
        || !eq_str(preference.backends[0].as_str(), GTK_BACKEND) {
        return false;
    }
    let routes = match &snapshot.portal_routes.value {
        Some(r) => r,
        None => return false,
    };
    let mut i: usize = 0;
    while i < routes.len()
        invariant
            i <= routes@.len(),
            forall|k: int| 0 <= k < i ==> !{
                let route = #[trigger] routes@[k];
                &&& route.interface@ == SETTINGS_INTERFACE@
                &&& route.status == RouteStatus::Selected
                &&& route.selected_candidates@.len() == 1
                &&& route.selected_candidates@[0]@ == GTK_BACKEND@
            },
        decreases routes@.len() - i,
    {
        let route = &routes[i];
        if eq_str(route.interface.as_str(), SETTINGS_INTERFACE) && route.status == RouteStatus::Selected
            && route.selected_candidates.len() == 1 && eq_str(route.selected_candidates[0].as_str(), GTK_BACKEND) {
            return true;
        }
        i = i + 1;
    }
    false
}

/// The preference a lower-priority file would apply to Settings: its one
/// explicit Settings entry, else its one `default` entry.
pub open spec fn lower_settings_preference(c: PortalConfigCandidate) -> Option<PortalPreference> {
    let explicit = prefs_for_spec(c.preferences@, SETTINGS_INTERFACE@);
    if explicit.len() > 1 {
        None
    } else if explicit.len() == 1 {
        Some(explicit[0])
    } else {
        let defaults = prefs_for_spec(c.preferences@, DEFAULT_INTERFACE@);
        if defaults.len() == 1 {
            Some(defaults[0])
        } else {
            None
        }
    }
}

fn lower_candidate_settings_preference(candidate: &PortalConfigCandidate) -> (r: Option<&PortalPreference>)
    ensures
        match (r, lower_settings_preference(*candidate)) {
            (Some(a), Some(b)) => *a == b,
            (None, None) => true,
            _ => false,
        },
{
    let explicit = prefs_for(&candidate.preferences, SETTINGS_INTERFACE);
    if explicit.len() > 1 {
        return None;
    }
    if explicit.len() == 1 {
        return Some(explicit[0]);
    }
    let defaults = prefs_for(&candidate.preferences, DEFAULT_INTERFACE);
    if defaults.len() == 1 {
        Some(defaults[0])
    } else {
        None
    }
}

/// A lower-priority candidate file, read cleanly, that would route
/// Settings to a list naming GNOME.
pub open spec fn lower_gnome_candidate(c: PortalConfigCandidate, selected_file: Seq<char>, priority: usize) -> bool {
    &&& c.path@ != selected_file
    &&& c.status == CollectorState::Available
    &&& c.parse_errors@.len() == 0
    &&& c.source_priority > priority
    &&& lower_settings_preference(c) matches Some(p) && views(p.backends@).contains(GNOME_BACKEND@)
}

pub open spec fn lower_settings_gnome_candidate(s: Snapshot) -> bool {
    &&& s.portal_config.value matches Some(config)
    &&& config.selected_file matches Some(f)
    &&& prefs_for_spec(config.preferences@, SETTINGS_INTERFACE@).len() > 0
    &&& exists|i: int| 0 <= i < config.lower_priority_candidates@.len()
        && lower_gnome_candidate(#[trigger] config.lower_priority_candidates@[i], f@,
            prefs_for_spec(config.preferences@, SETTINGS_INTERFACE@)[0].source_priority)
}

#[verifier::loop_isolation(false)]
fn has_lower_settings_gnome_candidate(snapshot: &Snapshot) -> (r: bool)
    ensures
        r == lower_settings_gnome_candidate(*snapshot),
{
    let config = match &snapshot.portal_config.value {
        Some(c) => c,
        None => return false,
    };
    let selected_file = match &config.selected_file {
        Some(f) => f,
        None => return false,
    };
    let settings = prefs_for(&config.preferences, SETTINGS_INTERFACE);
    if settings.len() == 0 {
        return false;
    }
    let selected_settings = settings[0];
    let ghost st = prefs_for_spec(config.preferences@, SETTINGS_INTERFACE@);
    assert(*selected_settings == st[0]);
    let candidates = &config.lower_priority_candidates;
    let mut i: usize = 0;
    while i < candidates.len()
        invariant
            i <= candidates@.len(),
            forall|k: int| 0 <= k < i ==> !lower_gnome_candidate(#[trigger] candidates@[k], selected_file@, st[0].source_priority),
        decreases candidates@.len() - i,
    {
        let candidate = &candidates[i];
        let mut ok = !eq_str(candidate.path.as_str(), selected_file.as_str())
            && candidate.status == CollectorState::Available
            && candidate.parse_errors.len() == 0
            && candidate.source_priority > selected_settings.source_priority;
        if ok {
            ok = match lower_candidate_settings_preference(candidate) {
                Some(p) => contains_string(&p.backends, GNOME_BACKEND),
                None => false,
            };
        }
        if ok {
            return true;
        }
        i = i + 1;
    }
    false
}

pub open spec fn xdp006_fires(s: Snapshot) -> bool {
    &&& s.portal_frontend.value matches Some(frontend)
    &&& frontend.component@ == PORTAL_FRONTEND_COMPONENT@
    &&& frontend.normalized_version == affected_frontend_version()
    &&& canonical_niri(s)
    &&& effective_settings_override(s)
    &&& lower_settings_gnome_candidate(s)
    &&& s.portal_backends.value matches Some(backends)
    &&& first_backend(backends@, GNOME_BACKEND@) matches Some(gnome)
    &&& first_backend(backends@, GTK_BACKEND@) matches Some(gtk)
    &&& gnome.implements(SETTINGS_INTERFACE@)
    &&& gtk.implements(SETTINGS_INTERFACE@)
}

/// XDP006 — the frontend 1.22.0 / Niri Settings compatibility risk.
///
/// A known-upstream-behavior warning, not an observation that a duplicate
/// `SettingsChanged` stream was seen on this machine: it needs the exact
/// frontend version, an effective explicit Settings override and both
/// capable descriptors before it fires.
pub struct Xdp006;

/// What `Xdp006::evaluate` returns for a snapshot.
pub open spec fn xdp006_output(s: Snapshot, r: Seq<Finding>) -> bool {
    &&& r.len() == if xdp006_fires(s) { 1int } else { 0int }
    &&& xdp006_fires(s) ==> {
            let f = r[0];
            &&& f.id@ == "XDP006"@
            &&& f.severity == Severity::Warning
            &&& f.confidence == Confidence::Medium
            &&& f.evidence@ == seq![Evidence::PortalFrontendVersion, Evidence::ConfigSelection, Evidence::ConfigCandidate]
            &&& f.impact is Some
            &&& f.recommendation@.len() == 1
            &&& f.source_component@ == "compatibility"@
            &&& f.summary@ == "Niri explicitly routes Settings to GTK while xdg-desktop-portal "@
                + affected_frontend_version().text() + " matches the exact XDP #2033 regression context."@
        }
    &&& forall|i: int| 0 <= i < r.len() ==> finding_texts(#[trigger] r[i], "Known xdg-desktop-portal Settings compatibility risk"@, "The exact frontend version and effective Niri configuration match a narrowly bounded upstream compatibility report involving Settings provider resolution. PortalDoctor did not observe duplicate SettingsChanged traffic or claim that a runtime conflict occurred; this finding is a known compatibility risk only."@, Some("Settings updates may be inconsistent on the affected frontend/configuration combination until the upstream behavior is confirmed or fixed."@), seq!["Verify the upstream fix or confirm actual SettingsChanged behavior before changing the selected backend."@])
}

/// Every XDP006 finding is complete.
pub proof fn lemma_xdp006_complete(s: Snapshot, r: Seq<Finding>)
    requires
        xdp006_output(s, r),
    ensures
        forall|i: int| 0 <= i < r.len() ==> finding_complete(#[trigger] r[i]),
{
    reveal_strlit("XDP006");
    reveal_strlit("compatibility");
    reveal_strlit("Niri explicitly routes Settings to GTK while xdg-desktop-portal ");
    reveal_strlit(" matches the exact XDP #2033 regression context.");
    reveal_strlit("Known xdg-desktop-portal Settings compatibility risk");
    reveal_strlit("The exact frontend version and effective Niri configuration match a narrowly bounded upstream compatibility report involving Settings provider resolution. PortalDoctor did not observe duplicate SettingsChanged traffic or claim that a runtime conflict occurred; this finding is a known compatibility risk only.");
    reveal_strlit("Settings updates may be inconsistent on the affected frontend/configuration combination until the upstream behavior is confirmed or fixed.");
    reveal_strlit("Verify the upstream fix or confirm actual SettingsChanged behavior before changing the selected backend.");
    assert forall|i: int| 0 <= i < r.len() implies finding_complete(#[trigger] r[i]) by {
        lemma_texts_not_empty(r[i], "Known xdg-desktop-portal Settings compatibility risk"@, "The exact frontend version and effective Niri configuration match a narrowly bounded upstream compatibility report involving Settings provider resolution. PortalDoctor did not observe duplicate SettingsChanged traffic or claim that a runtime conflict occurred; this finding is a known compatibility risk only."@, Some("Settings updates may be inconsistent on the affected frontend/configuration combination until the upstream behavior is confirmed or fixed."@), seq!["Verify the upstream fix or confirm actual SettingsChanged behavior before changing the selected backend."@]);
    }
}

impl DiagnosticRule for Xdp006 {
    fn id(&self) -> (r: &'static str)
        ensures
            r@ == "XDP006"@,
    {
        "XDP006"
    }

    fn evaluate(&self, snapshot: &Snapshot) -> (r: Vec<Finding>)
        ensures
            xdp006_output(*snapshot, r@),
    {
        let frontend = match &snapshot.portal_frontend.value {
            Some(f) => f,
            None => return Vec::new(),
        };
        let v = frontend.normalized_version;
        if !eq_str(frontend.component.as_str(), PORTAL_FRONTEND_COMPONENT) || !(v.major == 1 && v.minor == 22 && v.patch == 0) {
            return Vec::new();
        }
        if !is_canonical_niri(snapshot) || !has_effective_settings_override(snapshot) || !has_lower_settings_gnome_candidate(snapshot) {
            return Vec::new();
        }
        let backends = match &snapshot.portal_backends.value {
            Some(b) => b,
            None => return Vec::new(),
        };
        let gnome = match find_backend(backends, GNOME_BACKEND) {
            Some(g) => g,
            None => return Vec::new(),
        };
        let gtk = match find_backend(backends, GTK_BACKEND) {
            Some(g) => g,
            None => return Vec::new(),
        };
        if !gnome.has_interface(SETTINGS_INTERFACE) || !gtk.has_interface(SETTINGS_INTERFACE) {
            return Vec::new();
        }
        let mut evidence: Vec<Evidence> = Vec::new();
        evidence.push(Evidence::PortalFrontendVersion);
        evidence.push(Evidence::ConfigSelection);
        evidence.push(Evidence::ConfigCandidate);
        assert(evidence@ =~= seq![Evidence::PortalFrontendVersion, Evidence::ConfigSelection, Evidence::ConfigCandidate]);
        let summary = concat3(
            "Niri explicitly routes Settings to GTK while xdg-desktop-portal ",
            v.to_string().as_str(),
            " matches the exact XDP #2033 regression context.",
        );
        one_finding(Finding {
            id: "XDP006".to_owned(),
            severity: Severity::Warning,
            confidence: Confidence::Medium,
            title: "Known xdg-desktop-portal Settings compatibility risk".to_owned(),
            summary,
            explanation: "The exact frontend version and effective Niri configuration match a narrowly bounded upstream compatibility report involving Settings provider resolution. PortalDoctor did not observe duplicate SettingsChanged traffic or claim that a runtime conflict occurred; this finding is a known compatibility risk only.".to_owned(),
            evidence,
            impact: Some("Settings updates may be inconsistent on the affected frontend/configuration combination until the upstream behavior is confirmed or fixed.".to_owned()),
            recommendation: one_string("Verify the upstream fix or confirm actual SettingsChanged behavior before changing the selected backend."),
            source_component: "compatibility".to_owned(),
        })
    }
}

} // verus!
