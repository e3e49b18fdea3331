//! PW001–PW003 and SC001–SC002: the PipeWire media path behind ScreenCast.
use vstd::prelude::*;
use crate::model::evidence::Evidence;
use crate::model::finding::{Confidence, Finding, Severity};
use crate::model::portal::{PortalRoute, RouteStatus};
use crate::model::section::{CollectionNote, Section};
use crate::model::snapshot::Snapshot;
use crate::model::status::CollectorState;
use crate::rules::common::{finding_complete, finding_texts, lemma_texts_not_empty, one_evidence, one_finding, one_string};
use crate::rules::engine::DiagnosticRule;
use crate::text::{append, concat2, concat3, eq_str, join, join_strings, trim, trim_str, views};

verus! {

/// The ScreenCast backend interface.
pub const SCREENCAST_INTERFACE: &'static str = "org.freedesktop.impl.portal.ScreenCast";

/// The shape every media finding shares.
pub open spec fn media_finding_shape(
    f: Finding,
    id: Seq<char>,
    severity: Severity,
    confidence: Confidence,
    evidence: Seq<Evidence>,
    source_component: Seq<char>,
) -> bool {
    &&& f.id@ == id
    &&& f.severity == severity
    &&& f.confidence == confidence
    &&& f.evidence@ == evidence
    &&& f.impact is Some
    &&& f.recommendation@.len() == 1
    &&& f.source_component@ == source_component
}

/// Builder shared by the PipeWire and ScreenCast findings.
struct MediaFinding {
    finding: Finding,
}

impl MediaFinding {
    fn new(id: &str, source_component: &str) -> (b: Self)
        ensures
            b.finding.id@ == id@,
            b.finding.severity == Severity::Warning,
            b.finding.confidence == Confidence::High,
            b.finding.evidence@.len() == 0,
            b.finding.impact is Some,
            b.finding.recommendation@.len() == 0,
            b.finding.source_component@ == source_component@,
    {
        MediaFinding {
            finding: Finding {
                id: id.to_owned(),
                severity: Severity::Warning,
                confidence: Confidence::High,
                title: String::new(),
                summary: String::new(),
                explanation: String::new(),
                evidence: Vec::new(),
                impact: Some(String::new()),
                recommendation: Vec::new(),
                source_component: source_component.to_owned(),
            },
        }
    }

    fn severity(self, severity: Severity) -> (b: Self)
        ensures
            b.finding == (Finding { severity: severity, ..self.finding }),
    {
        let mut b = self;
        b.finding.severity = severity;
        b
    }

    fn confidence(self, confidence: Confidence) -> (b: Self)
        ensures
            b.finding == (Finding { confidence: confidence, ..self.finding }),
    {
        let mut b = self;
        b.finding.confidence = confidence;
        b
    }

    fn title(self, title: &str) -> (b: Self)
        ensures
            b.finding.title@ == title@,
            b.finding == (Finding { title: b.finding.title, ..self.finding }),
    {
        let mut b = self;
        b.finding.title = title.to_owned();
        b
    }

    fn summary(self, summary: String) -> (b: Self)
        ensures
            b.finding == (Finding { summary: summary, ..self.finding }),
    {
        let mut b = self;
        b.finding.summary = summary;
        b
    }

    fn explanation(self, explanation: &str) -> (b: Self)
        ensures
            b.finding.explanation@ == explanation@,
            b.finding == (Finding { explanation: b.finding.explanation, ..self.finding }),
    {
        let mut b = self;
        b.finding.explanation = explanation.to_owned();
        b
    }

    fn evidence(self, evidence: Vec<Evidence>) -> (b: Self)
        ensures
            b.finding == (Finding { evidence: evidence, ..self.finding }),
    {
        let mut b = self;
        b.finding.evidence = evidence;
        b
    }

    fn impact(self, impact: &str) -> (b: Self)
        ensures
            b.finding.impact matches Some(i) && i@ == impact@,
            b.finding == (Finding { impact: b.finding.impact, ..self.finding }),
    {
        let mut b = self;
        b.finding.impact = Some(impact.to_owned());
        b
    }

    fn recommendation(self, recommendation: &str) -> (b: Self)
        ensures
            b.finding.recommendation@.len() == 1,
            b.finding.recommendation@[0]@ == recommendation@,
            views(b.finding.recommendation@) == seq![recommendation@],
            b.finding == (Finding { recommendation: b.finding.recommendation, ..self.finding }),
    {
        let mut b = self;
        b.finding.recommendation = one_string(recommendation);
        b
    }

    fn build(self) -> (f: Finding)
        ensures
            f == self.finding,
    {
        self.finding
    }
}

/// A section that no collector has filled in yet: unsupported, with a
/// "not collected" note.
pub open spec fn marked_not_collected<T>(section: Section<T>) -> bool {
    &&& section.status == CollectorState::Unsupported
    &&& exists|i: int| 0 <= i < section.errors@.len() && (#[trigger] section.errors@[i]).message@ == "not collected"@
}

fn is_not_collected<T>(section: &Section<T>) -> (r: bool)
    ensures
        r == marked_not_collected(*section),
{
    if section.status != CollectorState::Unsupported {
        return false;
    }
    let mut i: usize = 0;
    while i < section.errors.len()
        invariant
            section.status == CollectorState::Unsupported,
            i <= section.errors@.len(),
            forall|k: int| 0 <= k < i ==> (#[trigger] section.errors@[k]).message@ != "not collected"@,
        decreases section.errors@.len() - i,
    {
        if eq_str(section.errors[i].message.as_str(), "not collected") {
            return true;
        }
        i = i + 1;
    }
    false
}

/// The first note's message, or `fallback` when there is none.
pub open spec fn first_note(errors: Seq<CollectionNote>, fallback: Seq<char>) -> Seq<char> {
    if errors.len() > 0 {
        errors[0].message@
    } else {
        fallback
    }
}

fn first_note_or<'a>(errors: &'a Vec<CollectionNote>, fallback: &'a str) -> (r: &'a str)
    ensures
        r@ == first_note(errors@, fallback@),
{
    if errors.len() > 0 {
        errors[0].message.as_str()
    } else {
        fallback
    }
}

pub open spec fn pw001_fires(s: Snapshot) -> bool {
    &&& !marked_not_collected(s.pipewire)
    &&& (s.pipewire.status == CollectorState::Unsupported || s.pipewire.status == CollectorState::Unavailable)
}

/// PW001 — the `pw-dump` command or PipeWire endpoint is unavailable.
pub struct Pw001;

/// What `Pw001::evaluate` returns for a snapshot.
pub open spec fn pw001_output(s: Snapshot, r: Seq<Finding>) -> bool {
    &&& r.len() == if pw001_fires(s) { 1int } else { 0int }
    &&& pw001_fires(s) ==> {
            &&& media_finding_shape(r[0], "PW001"@, Severity::Warning, Confidence::High, seq![Evidence::PipeWireState], "pipewire"@)
            &&& r[0].summary@ == "PipeWire state could not be collected: "@ + first_note(s.pipewire.errors@, "PipeWire state is unavailable."@)
        }
    &&& forall|i: int| 0 <= i < r.len() ==> finding_texts(#[trigger] r[i], "PipeWire is unavailable"@, "ScreenCast needs a reachable PipeWire session after the portal backend is selected. A missing `pw-dump` tool or an unavailable PipeWire endpoint prevents the media path from being verified."@, Some("ScreenCast readiness cannot be confirmed and capture may fail before a stream is created."@), seq!["Install the package that provides `pw-dump`, then verify that the user PipeWire session is running."@])
}

/// Every PW001 finding is complete.
pub proof fn lemma_pw001_complete(s: Snapshot, r: Seq<Finding>)
    requires
        pw001_output(s, r),
    ensures
        forall|i: int| 0 <= i < r.len() ==> finding_complete(#[trigger] r[i]),
{
    reveal_strlit("PW001");
    reveal_strlit("pipewire");
    reveal_strlit("PipeWire state could not be collected: ");
    reveal_strlit("PipeWire is unavailable");
    reveal_strlit("ScreenCast needs a reachable PipeWire session after the portal backend is selected. A missing `pw-dump` tool or an unavailable PipeWire endpoint prevents the media path from being verified.");
    reveal_strlit("ScreenCast readiness cannot be confirmed and capture may fail before a stream is created.");
    reveal_strlit("Install the package that provides `pw-dump`, then verify that the user PipeWire session is running.");
    assert forall|i: int| 0 <= i < r.len() implies finding_complete(#[trigger] r[i]) by {
        lemma_texts_not_empty(r[i], "PipeWire is unavailable"@, "ScreenCast needs a reachable PipeWire session after the portal backend is selected. A missing `pw-dump` tool or an unavailable PipeWire endpoint prevents the media path from being verified."@, Some("ScreenCast readiness cannot be confirmed and capture may fail before a stream is created."@), seq!["Install the package that provides `pw-dump`, then verify that the user PipeWire session is running."@]);
    }
}

impl DiagnosticRule for Pw001 {
    fn id(&self) -> (r: &'static str)
        ensures
            r@ == "PW001"@,
    {
        "PW001"
    }

    fn evaluate(&self, snapshot: &Snapshot) -> (r: Vec<Finding>)
        ensures
            pw001_output(*snapshot, r@),
    {
        let section = &snapshot.pipewire;
        if is_not_collected(section) {
            return Vec::new();
        }
        if !(section.status == CollectorState::Unsupported || section.status == CollectorState::Unavailable) {
            return Vec::new();
        }
        let detail = first_note_or(&section.errors, "PipeWire state is unavailable.");
        one_finding(MediaFinding::new("PW001", "pipewire")
            .title("PipeWire is unavailable")
            .summary(concat2("PipeWire state could not be collected: ", detail))
            .explanation("ScreenCast needs a reachable PipeWire session after the portal backend is selected. A missing `pw-dump` tool or an unavailable PipeWire endpoint prevents the media path from being verified.")
            .evidence(one_evidence(Evidence::PipeWireState))
            .impact("ScreenCast readiness cannot be confirmed and capture may fail before a stream is created.")
            .recommendation("Install the package that provides `pw-dump`, then verify that the user PipeWire session is running.")
            .build())
    }
}

pub open spec fn pw002_fires(s: Snapshot) -> bool {
    !marked_not_collected(s.wireplumber) && s.wireplumber.status != CollectorState::Available
}

/// PW002 — `wpctl status` cannot verify the WirePlumber side.
pub struct Pw002;

/// What `Pw002::evaluate` returns for a snapshot.
pub open spec fn pw002_output(s: Snapshot, r: Seq<Finding>) -> bool {
    &&& r.len() == if pw002_fires(s) { 1int } else { 0int }
    &&& pw002_fires(s) ==> {
            &&& media_finding_shape(r[0], "PW002"@, Severity::Warning, Confidence::High, seq![Evidence::WirePlumberState], "pipewire"@)
            &&& r[0].summary@ == "WirePlumber state could not be verified: "@ + first_note(s.wireplumber.errors@, "WirePlumber state is unavailable."@)
        }
    &&& forall|i: int| 0 <= i < r.len() ==> finding_texts(#[trigger] r[i], "WirePlumber is unavailable"@, "WirePlumber provides the session-manager side of the PipeWire desktop media stack. Portal routing may be correct while the session manager is missing, unreachable or unable to answer a bounded status query."@, Some("The media graph may not be prepared for a ScreenCast stream."@), seq!["Check the user WirePlumber service and rerun `wpctl status` from the same graphical session."@])
}

/// Every PW002 finding is complete.
pub proof fn lemma_pw002_complete(s: Snapshot, r: Seq<Finding>)
    requires
        pw002_output(s, r),
    ensures
        forall|i: int| 0 <= i < r.len() ==> finding_complete(#[trigger] r[i]),
{
    reveal_strlit("PW002");
    reveal_strlit("pipewire");
    reveal_strlit("WirePlumber state could not be verified: ");
    reveal_strlit("WirePlumber state is unavailable.");
    reveal_strlit("WirePlumber is unavailable");
    reveal_strlit("WirePlumber provides the session-manager side of the PipeWire desktop media stack. Portal routing may be correct while the session manager is missing, unreachable or unable to answer a bounded status query.");
    reveal_strlit("The media graph may not be prepared for a ScreenCast stream.");
    reveal_strlit("Check the user WirePlumber service and rerun `wpctl status` from the same graphical session.");
    assert forall|i: int| 0 <= i < r.len() implies finding_complete(#[trigger] r[i]) by {
        lemma_texts_not_empty(r[i], "WirePlumber is unavailable"@, "WirePlumber provides the session-manager side of the PipeWire desktop media stack. Portal routing may be correct while the session manager is missing, unreachable or unable to answer a bounded status query."@, Some("The media graph may not be prepared for a ScreenCast stream."@), seq!["Check the user WirePlumber service and rerun `wpctl status` from the same graphical session."@]);
    }
}

impl DiagnosticRule for Pw002 {
    fn id(&self) -> (r: &'static str)
        ensures
            r@ == "PW002"@,
    {
        "PW002"
    }

    fn evaluate(&self, snapshot: &Snapshot) -> (r: Vec<Finding>)
        ensures
            pw002_output(*snapshot, r@),
    {
        let section = &snapshot.wireplumber;
        if is_not_collected(section) {
            return Vec::new();
        }
        if section.status == CollectorState::Available {
            return Vec::new();
        }
        let detail = first_note_or(&section.errors, "WirePlumber state is unavailable.");
        one_finding(MediaFinding::new("PW002", "pipewire")
            .title("WirePlumber is unavailable")
            .summary(concat2("WirePlumber state could not be verified: ", detail))
            .explanation("WirePlumber provides the session-manager side of the PipeWire desktop media stack. Portal routing may be correct while the session manager is missing, unreachable or unable to answer a bounded status query.")
            .evidence(one_evidence(Evidence::WirePlumberState))
            .impact("The media graph may not be prepared for a ScreenCast stream.")
            .recommendation("Check the user WirePlumber service and rerun `wpctl status` from the same graphical session.")
            .build())
    }
}

pub open spec fn pw003_fires(s: Snapshot) -> bool {
    s.pipewire.status == CollectorState::TimedOut
        || s.pipewire.status == CollectorState::PermissionDenied
        || s.pipewire.status == CollectorState::ParseError
}

/// PW003 — PipeWire was invoked but its state query did not complete.
pub struct Pw003;

/// What `Pw003::evaluate` returns for a snapshot.
pub open spec fn pw003_output(s: Snapshot, r: Seq<Finding>) -> bool {
    &&& r.len() == if pw003_fires(s) { 1int } else { 0int }
    &&& pw003_fires(s) ==> {
            &&& media_finding_shape(r[0], "PW003"@, Severity::Warning, Confidence::Medium, seq![Evidence::PipeWireState], "pipewire"@)
            &&& r[0].summary@ == "The bounded PipeWire state query failed: "@ + first_note(s.pipewire.errors@, "the state query did not complete"@)
        }
    &&& forall|i: int| 0 <= i < r.len() ==> finding_texts(#[trigger] r[i], "PipeWire state query failed"@, "PortalDoctor separates a failed state query from a confirmed missing PipeWire endpoint. The result may be caused by a timeout, permission boundary or an output format that could not be parsed safely."@, Some("The media path is unknown; a ScreenCast failure cannot be localized yet."@), seq!["Run `pw-dump --no-colors` manually, check the user PipeWire session and review the command boundary before retrying."@])
}

/// Every PW003 finding is complete.
pub proof fn lemma_pw003_complete(s: Snapshot, r: Seq<Finding>)
    requires
        pw003_output(s, r),
    ensures
        forall|i: int| 0 <= i < r.len() ==> finding_complete(#[trigger] r[i]),
{
    reveal_strlit("PW003");
    reveal_strlit("pipewire");
    reveal_strlit("The bounded PipeWire state query failed: ");
    reveal_strlit("the state query did not complete");
    reveal_strlit("PipeWire state query failed");
    reveal_strlit("PortalDoctor separates a failed state query from a confirmed missing PipeWire endpoint. The result may be caused by a timeout, permission boundary or an output format that could not be parsed safely.");
    reveal_strlit("The media path is unknown; a ScreenCast failure cannot be localized yet.");
    reveal_strlit("Run `pw-dump --no-colors` manually, check the user PipeWire session and review the command boundary before retrying.");
    assert forall|i: int| 0 <= i < r.len() implies finding_complete(#[trigger] r[i]) by {
        lemma_texts_not_empty(r[i], "PipeWire state query failed"@, "PortalDoctor separates a failed state query from a confirmed missing PipeWire endpoint. The result may be caused by a timeout, permission boundary or an output format that could not be parsed safely."@, Some("The media path is unknown; a ScreenCast failure cannot be localized yet."@), seq!["Run `pw-dump --no-colors` manually, check the user PipeWire session and review the command boundary before retrying."@]);
    }
}

impl DiagnosticRule for Pw003 {
    fn id(&self) -> (r: &'static str)
        ensures
            r@ == "PW003"@,
    {
        "PW003"
    }

    fn evaluate(&self, snapshot: &Snapshot) -> (r: Vec<Finding>)
        ensures
            pw003_output(*snapshot, r@),
    {
        let section = &snapshot.pipewire;
        if !(section.status == CollectorState::TimedOut || section.status == CollectorState::PermissionDenied
            || section.status == CollectorState::ParseError) {
            return Vec::new();
        }
        let detail = first_note_or(&section.errors, "the state query did not complete");
        one_finding(MediaFinding::new("PW003", "pipewire")
            .severity(Severity::Warning)
            .confidence(Confidence::Medium)
            .title("PipeWire state query failed")
            .summary(concat2("The bounded PipeWire state query failed: ", detail))
            .explanation("PortalDoctor separates a failed state query from a confirmed missing PipeWire endpoint. The result may be caused by a timeout, permission boundary or an output format that could not be parsed safely.")
            .evidence(one_evidence(Evidence::PipeWireState))
            .impact("The media path is unknown; a ScreenCast failure cannot be localized yet.")
            .recommendation("Run `pw-dump --no-colors` manually, check the user PipeWire session and review the command boundary before retrying.")
            .build())
    }
}

/// The first route for `iface`.
pub open spec fn first_route(routes: Seq<PortalRoute>, iface: Seq<char>) -> Option<PortalRoute>
    decreases routes.len(),
{
    if routes.len() == 0 {
        None
    } else if routes[0].interface@ == iface {
        Some(routes[0])
    } else {
        first_route(routes.drop_first(), iface)
    }
}

pub open spec fn screencast_route_spec(s: Snapshot) -> Option<PortalRoute> {
    match s.portal_routes.value {
        Some(routes) => first_route(routes@, SCREENCAST_INTERFACE@),
        None => None,
    }
}

fn screencast_route(snapshot: &Snapshot) -> (r: Option<&PortalRoute>)
    ensures
        match (r, screencast_route_spec(*snapshot)) {
            (Some(a), Some(b)) => *a == b,
            (None, None) => true,
            _ => false,
        },
{
    let routes = match &snapshot.portal_routes.value {
        Some(r) => r,
        None => return None,
    };
    let mut i: usize = 0;
    assert(routes@.subrange(0, routes@.len() as int) =~= routes@);
    while i < routes.len()
        invariant
            snapshot.portal_routes.value == Some(*routes),
            i <= routes@.len(),
            first_route(routes@, SCREENCAST_INTERFACE@) == first_route(routes@.subrange(i as int, routes@.len() as int), SCREENCAST_INTERFACE@),
        decreases routes@.len() - i,
    {
        let route = &routes[i];
        let ghost rest = routes@.subrange(i as int, routes@.len() as int);
        assert(rest[0] == *route);
        if eq_str(route.interface.as_str(), SCREENCAST_INTERFACE) {
            assert(first_route(rest, SCREENCAST_INTERFACE@) == Some(rest[0]));
            return Some(route);
        }
        assert(rest.drop_first() =~= routes@.subrange(i + 1, routes@.len() as int));
        i = i + 1;
    }
    None
}

/// The session names a desktop (after trimming).
pub open spec fn has_desktop_identity(s: Snapshot) -> bool {
    s.session.value matches Some(session) && session.current_desktop matches Some(d) && trim(d@).len() > 0
}

/// No usable ScreenCast backend: the desktop is known and either the
/// ScreenCast route has no provider or, without a route, no discovered
/// backend implements ScreenCast at all.
pub open spec fn no_usable_screencast(s: Snapshot) -> bool {
    &&& has_desktop_identity(s)
    &&& match screencast_route_spec(s) {
        Some(route) => route.status == RouteStatus::NoProvider,
        None => s.portal_backends.value matches Some(b) && b@.len() > 0
            && forall|i: int| 0 <= i < b@.len() ==> !(#[trigger] b@[i]).implements(SCREENCAST_INTERFACE@),
    }
}

fn no_usable_screencast_route(snapshot: &Snapshot) -> (r: bool)
    ensures
        r == no_usable_screencast(*snapshot),
{
    let has_identity = match &snapshot.session.value {
        Some(session) => match &session.current_desktop {
            Some(desktop) => !trim_str(desktop.as_str()).as_str().is_empty(),
            None => false,
        },
        None => false,
    };
    if !has_identity {
        return false;
    }
    match screencast_route(snapshot) {
        Some(route) => return route.status == RouteStatus::NoProvider,
        None => {},
    }
    let backends = match &snapshot.portal_backends.value {
        Some(b) => b,
        None => return false,
    };
    if backends.len() == 0 {
        return false;
    }
    let mut i: usize = 0;
    while i < backends.len()
        invariant
            snapshot.portal_backends.value == Some(*backends),
            screencast_route_spec(*snapshot) is None,
            has_desktop_identity(*snapshot),
            i <= backends@.len(),
            forall|k: int| 0 <= k < i ==> !(#[trigger] backends@[k]).implements(SCREENCAST_INTERFACE@),
        decreases backends@.len() - i,
    {
        if backends[i].has_interface(SCREENCAST_INTERFACE) {
            return false;
        }
        i = i + 1;
    }
    true
}

/// SC001 — no usable ScreenCast provider is selected for the desktop.
pub struct Sc001;

/// What `Sc001::evaluate` returns for a snapshot.
pub open spec fn sc001_output(s: Snapshot, r: Seq<Finding>) -> bool {
    &&& r.len() == if no_usable_screencast(s) { 1int } else { 0int }
    &&& no_usable_screencast(s) ==> {
            &&& media_finding_shape(r[0], "SC001"@, Severity::Warning, Confidence::High, seq![Evidence::ScreenCastRoute], "screencast"@)
            &&& r[0].summary@ == "No ScreenCast backend is selected and available for the current desktop."@
        }
    &&& forall|i: int| 0 <= i < r.len() ==> finding_texts(#[trigger] r[i], "No usable ScreenCast backend"@, "ScreenCast requests need a backend that advertises the ScreenCast interface and survives the desktop-specific routing rules. Installed backends for other interfaces do not satisfy this requirement."@, Some("Applications cannot create a ScreenCast session through the portal stack."@), seq!["Install or select a backend that implements `org.freedesktop.impl.portal.ScreenCast`, then rerun `portaldoctor portal explain ScreenCast`."@])
    &&& forall|i: int| 0 <= i < r.len() ==> r[i].summary@ == "No ScreenCast backend is selected and available for the current desktop."@
}

/// Every SC001 finding is complete.
pub proof fn lemma_sc001_complete(s: Snapshot, r: Seq<Finding>)
    requires
        sc001_output(s, r),
    ensures
        forall|i: int| 0 <= i < r.len() ==> finding_complete(#[trigger] r[i]),
{
    reveal_strlit("SC001");
    reveal_strlit("screencast");
    reveal_strlit("No ScreenCast backend is selected and available for the current desktop.");
    reveal_strlit("No usable ScreenCast backend");
    reveal_strlit("ScreenCast requests need a backend that advertises the ScreenCast interface and survives the desktop-specific routing rules. Installed backends for other interfaces do not satisfy this requirement.");
    reveal_strlit("Applications cannot create a ScreenCast session through the portal stack.");
    reveal_strlit("Install or select a backend that implements `org.freedesktop.impl.portal.ScreenCast`, then rerun `portaldoctor portal explain ScreenCast`.");
    assert forall|i: int| 0 <= i < r.len() implies finding_complete(#[trigger] r[i]) by {
        lemma_texts_not_empty(r[i], "No usable ScreenCast backend"@, "ScreenCast requests need a backend that advertises the ScreenCast interface and survives the desktop-specific routing rules. Installed backends for other interfaces do not satisfy this requirement."@, Some("Applications cannot create a ScreenCast session through the portal stack."@), seq!["Install or select a backend that implements `org.freedesktop.impl.portal.ScreenCast`, then rerun `portaldoctor portal explain ScreenCast`."@]);
    }
}

impl DiagnosticRule for Sc001 {
    fn id(&self) -> (r: &'static str)
        ensures
            r@ == "SC001"@,
    {
        "SC001"
    }

    fn evaluate(&self, snapshot: &Snapshot) -> (r: Vec<Finding>)
        ensures
            sc001_output(*snapshot, r@),
    {
        if !no_usable_screencast_route(snapshot) {
            return Vec::new();
        }
        one_finding(MediaFinding::new("SC001", "screencast")
            .title("No usable ScreenCast backend")
            .summary("No ScreenCast backend is selected and available for the current desktop.".to_owned())
            .explanation("ScreenCast requests need a backend that advertises the ScreenCast interface and survives the desktop-specific routing rules. Installed backends for other interfaces do not satisfy this requirement.")
            .evidence(one_evidence(Evidence::ScreenCastRoute))
            .impact("Applications cannot create a ScreenCast session through the portal stack.")
            .recommendation("Install or select a backend that implements `org.freedesktop.impl.portal.ScreenCast`, then rerun `portaldoctor portal explain ScreenCast`.")
            .build())
    }
}

pub open spec fn sc002_fires(s: Snapshot) -> bool {
    &&& screencast_route_spec(s) matches Some(route) && route.status == RouteStatus::Selected
    &&& !marked_not_collected(s.pipewire)
    &&& !marked_not_collected(s.wireplumber)
    &&& (s.pipewire.status != CollectorState::Available || s.wireplumber.status != CollectorState::Available)
}

/// The unavailable parts of the media path, in the order reported.
pub open spec fn sc002_unavailable(s: Snapshot) -> Seq<Seq<char>> {
    let pw: Seq<Seq<char>> = if s.pipewire.status != CollectorState::Available {
        seq!["PipeWire "@ + s.pipewire.status.label_spec()]
    } else {
        Seq::empty()
    };
    if s.wireplumber.status != CollectorState::Available {
        pw.push("WirePlumber "@ + s.wireplumber.status.label_spec())
    } else {
        pw
    }
}

pub open spec fn sc002_evidence(s: Snapshot) -> Seq<Evidence> {
    let pw: Seq<Evidence> = if s.pipewire.status != CollectorState::Available {
        seq![Evidence::ScreenCastRoute, Evidence::PipeWireState]
    } else {
        seq![Evidence::ScreenCastRoute]
    };
    if s.wireplumber.status != CollectorState::Available {
        pw.push(Evidence::WirePlumberState)
    } else {
        pw
    }
}

/// SC002 — routing exists, but the passive media-path checks are unavailable.
pub struct Sc002;

/// What `Sc002::evaluate` returns for a snapshot.
pub open spec fn sc002_output(s: Snapshot, r: Seq<Finding>) -> bool {
    &&& r.len() == if sc002_fires(s) { 1int } else { 0int }
    &&& sc002_fires(s) ==> {
            let route = screencast_route_spec(s).unwrap();
            &&& media_finding_shape(r[0], "SC002"@, Severity::Warning, Confidence::High, sc002_evidence(s), "screencast"@)
            &&& r[0].summary@ == "ScreenCast is routed to "@ + join(views(route.selected_candidates@), ", "@) + ", but "@
                + join(sc002_unavailable(s), " and "@) + "."@
        }
    &&& forall|i: int| 0 <= i < r.len() ==> finding_texts(#[trigger] r[i], "ScreenCast route exists but media path is unavailable"@, "A selected portal backend proves only the D-Bus route. ScreenCast also needs a reachable PipeWire graph and a functioning session manager before an active probe can create a usable stream."@, Some("The portal may open a source selector but fail before returning a usable media stream."@), seq!["Repair the reported PipeWire/WirePlumber condition, then rerun the passive check before debugging the calling application."@])
}

/// Every SC002 finding is complete.
pub proof fn lemma_sc002_complete(s: Snapshot, r: Seq<Finding>)
    requires
        sc002_output(s, r),
    ensures
        forall|i: int| 0 <= i < r.len() ==> finding_complete(#[trigger] r[i]),
{
    reveal_strlit("SC002");
    reveal_strlit("screencast");
    reveal_strlit("ScreenCast is routed to ");
    reveal_strlit(", ");
    reveal_strlit(", but ");
    reveal_strlit(" and ");
    reveal_strlit(".");
    reveal_strlit("ScreenCast route exists but media path is unavailable");
    reveal_strlit("A selected portal backend proves only the D-Bus route. ScreenCast also needs a reachable PipeWire graph and a functioning session manager before an active probe can create a usable stream.");
    reveal_strlit("The portal may open a source selector but fail before returning a usable media stream.");
    reveal_strlit("Repair the reported PipeWire/WirePlumber condition, then rerun the passive check before debugging the calling application.");
    assert forall|i: int| 0 <= i < r.len() implies finding_complete(#[trigger] r[i]) by {
        lemma_texts_not_empty(r[i], "ScreenCast route exists but media path is unavailable"@, "A selected portal backend proves only the D-Bus route. ScreenCast also needs a reachable PipeWire graph and a functioning session manager before an active probe can create a usable stream."@, Some("The portal may open a source selector but fail before returning a usable media stream."@), seq!["Repair the reported PipeWire/WirePlumber condition, then rerun the passive check before debugging the calling application."@]);
    }
}

impl DiagnosticRule for Sc002 {
    fn id(&self) -> (r: &'static str)
        ensures
            r@ == "SC002"@,
    {
        "SC002"
    }

    fn evaluate(&self, snapshot: &Snapshot) -> (r: Vec<Finding>)
        ensures
            sc002_output(*snapshot, r@),
    {
        let route = match screencast_route(snapshot) {
            Some(r) => r,
            None => return Vec::new(),
        };
        if route.status != RouteStatus::Selected {
            return Vec::new();
        }
        if is_not_collected(&snapshot.pipewire) || is_not_collected(&snapshot.wireplumber) {
            return Vec::new();
        }
        let mut unavailable: Vec<String> = Vec::new();
        let mut evidence: Vec<Evidence> = one_evidence(Evidence::ScreenCastRoute);
        if snapshot.pipewire.status != CollectorState::Available {
            unavailable.push(concat2("PipeWire ", snapshot.pipewire.status.label()));
            evidence.push(Evidence::PipeWireState);
        }
        if snapshot.wireplumber.status != CollectorState::Available {
            unavailable.push(concat2("WirePlumber ", snapshot.wireplumber.status.label()));
            evidence.push(Evidence::WirePlumberState);
        }
        if unavailable.len() == 0 {
            return Vec::new();
        }
        assert(views(unavailable@) =~= sc002_unavailable(*snapshot));
        assert(evidence@ =~= sc002_evidence(*snapshot));
        let mut summary = concat3("ScreenCast is routed to ", join_strings(&route.selected_candidates, ", ").as_str(), ", but ");
        append(&mut summary, join_strings(&unavailable, " and ").as_str());
        append(&mut summary, ".");
        one_finding(MediaFinding::new("SC002", "screencast")
            .title("ScreenCast route exists but media path is unavailable")
            .summary(summary)
            .explanation("A selected portal backend proves only the D-Bus route. ScreenCast also needs a reachable PipeWire graph and a functioning session manager before an active probe can create a usable stream.")
            .evidence(evidence)
            .impact("The portal may open a source selector but fail before returning a usable media stream.")
            .recommendation("Repair the reported PipeWire/WirePlumber condition, then rerun the passive check before debugging the calling application.")
            .build())
    }
}

/// Without a selected ScreenCast route SC002 stays silent.
pub proof fn law_sc002_needs_a_selected_route(s: Snapshot, r: Seq<Finding>)
    requires
        sc002_output(s, r),
        !(screencast_route_spec(s) matches Some(route) && route.status == RouteStatus::Selected),
    ensures
        r.len() == 0,
{
}

/// With the ScreenCast route selected and both media sections collected,
/// SC002 fires exactly when PipeWire or WirePlumber is not available, and
/// its evidence names each service that is down.
pub proof fn law_sc002_fires_when_a_media_service_is_down(s: Snapshot, r: Seq<Finding>)
    requires
        sc002_output(s, r),
        screencast_route_spec(s) matches Some(route) && route.status == RouteStatus::Selected,
        !marked_not_collected(s.pipewire),
        !marked_not_collected(s.wireplumber),
    ensures
        r.len() == 1 <==> (s.pipewire.status != CollectorState::Available || s.wireplumber.status != CollectorState::Available),
        r.len() == 0 <==> (s.pipewire.status == CollectorState::Available && s.wireplumber.status == CollectorState::Available),
        r.len() == 1 && s.pipewire.status != CollectorState::Available ==> r[0].evidence@.contains(Evidence::PipeWireState),
        r.len() == 1 && s.wireplumber.status != CollectorState::Available ==> r[0].evidence@.contains(Evidence::WirePlumberState),
{
    if r.len() == 1 {
        let e = r[0].evidence@;
        if s.pipewire.status != CollectorState::Available {
            assert(e[1] == Evidence::PipeWireState);
        }
        if s.wireplumber.status != CollectorState::Available {
            assert(e[e.len() - 1] == Evidence::WirePlumberState);
        }
    }
}

} // verus!
