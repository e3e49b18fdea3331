//! DBUS001–DBUS002 and XDP001–XDP002: runtime reachability of the portal
//! frontend and of the configured backends.
use vstd::prelude::*;
use crate::model::dbus::{DbusCheck, DbusOutcome, PORTAL_FRONTEND_NAME};
use crate::model::evidence::Evidence;
use crate::model::finding::{Confidence, Finding, Severity};
use crate::model::service::{unit_index, ServiceInfo, UnitState};
use crate::model::snapshot::Snapshot;
use crate::rules::common::{finding_complete, finding_texts, lemma_texts_not_empty, one_evidence, one_finding, one_string};
use crate::rules::engine::DiagnosticRule;
use crate::text::{concat3, concat4, eq_str, insert_sorted, join, join_strings, sorted_strict, views};

verus! {

/// The shape every D-Bus finding shares.
pub open spec fn dbus_finding_shape(
    f: Finding,
    id: Seq<char>,
    severity: Severity,
    confidence: Confidence,
    evidence: Evidence,
) -> bool {
    &&& f.id@ == id
    &&& f.severity == severity
    &&& f.confidence == confidence
    &&& f.evidence@ == seq![evidence]
    &&& f.impact is Some
    &&& f.recommendation@.len() == 1
    &&& f.source_component@ == "dbus"@
}

/// Builder so the D-Bus findings read like their rule intent.
struct DbusFinding {
    finding: Finding,
}

impl DbusFinding {
    fn new(id: &str) -> (b: Self)
        ensures
            b.finding.id@ == id@,
            b.finding.severity == Severity::Warning,
            b.finding.confidence == Confidence::High,
            b.finding.evidence@ == seq![Evidence::ServiceState],
            b.finding.impact is Some,
            b.finding.recommendation@.len() == 0,
            b.finding.source_component@ == "dbus"@,
    {
        DbusFinding {
            finding: Finding {
                id: id.to_owned(),
                severity: Severity::Warning,
                confidence: Confidence::High,
                title: String::new(),
                summary: String::new(),
                explanation: String::new(),
                evidence: one_evidence(Evidence::ServiceState),
                impact: Some(String::new()),
                recommendation: Vec::new(),
                source_component: "dbus".to_owned(),
            },
        }
    }

    fn severity(self, severity: Severity) -> (b: Self)
        ensures
            b.finding == (Finding { severity: severity, ..self.finding }),
    {
        let mut b = self;
        b.finding.severity = severity;
        b
    }

    fn confidence(self, confidence: Confidence) -> (b: Self)
        ensures
            b.finding == (Finding { confidence: confidence, ..self.finding }),
    {
        let mut b = self;
        b.finding.confidence = confidence;
        b
    }

    fn title(self, title: &str) -> (b: Self)
        ensures
            b.finding.title@ == title@,
            b.finding == (Finding { title: b.finding.title, ..self.finding }),
    {
        let mut b = self;
        b.finding.title = title.to_owned();
        b
    }

    fn summary(self, summary: String) -> (b: Self)
        ensures
            b.finding == (Finding { summary: summary, ..self.finding }),
    {
        let mut b = self;
        b.finding.summary = summary;
        b
    }

    fn explanation(self, explanation: &str) -> (b: Self)
        ensures
            b.finding.explanation@ == explanation@,
            b.finding == (Finding { explanation: b.finding.explanation, ..self.finding }),
    {
        let mut b = self;
        b.finding.explanation = explanation.to_owned();
        b
    }

    fn evidence(self, evidence: Evidence) -> (b: Self)
        ensures
            b.finding.evidence@ == seq![evidence],
            b.finding == (Finding { evidence: b.finding.evidence, ..self.finding }),
    {
        let mut b = self;
        b.finding.evidence = one_evidence(evidence);
        b
    }

    fn impact(self, impact: &str) -> (b: Self)
        ensures
            b.finding.impact matches Some(i) && i@ == impact@,
            b.finding == (Finding { impact: b.finding.impact, ..self.finding }),
    {
        let mut b = self;
        b.finding.impact = Some(impact.to_owned());
        b
    }

    fn recommendation(self, recommendation: &str) -> (b: Self)
        ensures
            b.finding.recommendation@.len() == 1,
            b.finding.recommendation@[0]@ == recommendation@,
            views(b.finding.recommendation@) == seq![recommendation@],
            b.finding == (Finding { recommendation: b.finding.recommendation, ..self.finding }),
    {
        let mut b = self;
        b.finding.recommendation = one_string(recommendation);
        b
    }

    fn build(self) -> (f: Finding)
        ensures
            f == self.finding,
    {
        self.finding
    }
}

/// The checks of configured backends: every check but the frontend's
/// (the frontend has its own rule, XDP001).
pub open spec fn backend_checks_spec(checks: Seq<DbusCheck>) -> Seq<DbusCheck> {
    checks.filter(|c: DbusCheck| c.name@ != PORTAL_FRONTEND_NAME@)
}

pub open spec fn snapshot_backend_checks(s: Snapshot) -> Seq<DbusCheck> {
    match s.dbus.value {
        Some(info) => backend_checks_spec(info.checks@),
        None => Seq::empty(),
    }
}

fn backend_checks(snapshot: &Snapshot) -> (r: Vec<&DbusCheck>)
    ensures
        r@.len() == snapshot_backend_checks(*snapshot).len(),
        forall|k: int| 0 <= k < r@.len() ==> #[trigger] r@[k] == snapshot_backend_checks(*snapshot)[k],
{
    let mut out: Vec<&DbusCheck> = Vec::new();
    match &snapshot.dbus.value {
        Some(info) => {
            let mut i: usize = 0;
            while i < info.checks.len()
                invariant
                    i <= info.checks@.len(),
                    out@.len() == backend_checks_spec(info.checks@.take(i as int)).len(),
                    forall|k: int| 0 <= k < out@.len() ==> #[trigger] out@[k] == backend_checks_spec(info.checks@.take(i as int))[k],
                decreases info.checks@.len() - i,
            {
                let c = &info.checks[i];
                proof {
                    reveal(Seq::filter);
                }
                assert(info.checks@.take(i + 1).drop_last() =~= info.checks@.take(i as int));
                if !eq_str(c.name.as_str(), PORTAL_FRONTEND_NAME) {
                    out.push(c);
                }
                i = i + 1;
            }
            assert(info.checks@.take(i as int) =~= info.checks@);
        },
        None => {
            assert(snapshot_backend_checks(*snapshot) =~= Seq::<DbusCheck>::empty());
        },
    }
    out
}

/// DBUS001 — session bus unavailable.
pub struct Dbus001;

pub open spec fn dbus001_fires(s: Snapshot) -> bool {
    s.dbus.value matches Some(info) && !info.connected
}

/// What `Dbus001::evaluate` returns for a snapshot.
pub open spec fn dbus001_output(s: Snapshot, r: Seq<Finding>) -> bool {
    &&& r.len() == if dbus001_fires(s) { 1int } else { 0int }
    &&& dbus001_fires(s) ==> dbus_finding_shape(r[0], "DBUS001"@, Severity::Warning, Confidence::High, Evidence::MissingProvider)
            && r[0].summary@ == "No session D-Bus could be reached, so runtime verification was skipped."@
    &&& forall|i: int| 0 <= i < r.len() ==> finding_texts(#[trigger] r[i], "Session bus unavailable"@, "Portal backends and the frontend communicate over the session bus; without it no portal call can succeed."@, Some("Every portal-dependent feature is effectively unusable in this session."@), seq!["Verify DBUS_SESSION_BUS_ADDRESS and that dbus-daemon/dbus-broker is running for the user session."@])
}

/// Every DBUS001 finding is complete.
pub proof fn lemma_dbus001_complete(s: Snapshot, r: Seq<Finding>)
    requires
        dbus001_output(s, r),
    ensures
        forall|i: int| 0 <= i < r.len() ==> finding_complete(#[trigger] r[i]),
{
    reveal_strlit("DBUS001");
    reveal_strlit("No session D-Bus could be reached, so runtime verification was skipped.");
    reveal_strlit("Session bus unavailable");
    reveal_strlit("Portal backends and the frontend communicate over the session bus; without it no portal call can succeed.");
    reveal_strlit("Every portal-dependent feature is effectively unusable in this session.");
    reveal_strlit("Verify DBUS_SESSION_BUS_ADDRESS and that dbus-daemon/dbus-broker is running for the user session.");
    reveal_strlit("dbus");
    assert forall|i: int| 0 <= i < r.len() implies finding_complete(#[trigger] r[i]) by {
        lemma_texts_not_empty(r[i], "Session bus unavailable"@, "Portal backends and the frontend communicate over the session bus; without it no portal call can succeed."@, Some("Every portal-dependent feature is effectively unusable in this session."@), seq!["Verify DBUS_SESSION_BUS_ADDRESS and that dbus-daemon/dbus-broker is running for the user session."@]);
    }
}

impl DiagnosticRule for Dbus001 {
    fn id(&self) -> (r: &'static str)
        ensures
            r@ == "DBUS001"@,
    {
        "DBUS001"
    }

    fn evaluate(&self, snapshot: &Snapshot) -> (r: Vec<Finding>)
        ensures
            dbus001_output(*snapshot, r@),
    {
        let info = match &snapshot.dbus.value {
            Some(i) => i,
            None => return Vec::new(),
        };
        if info.connected {
            return Vec::new();
        }
        one_finding(DbusFinding::new("DBUS001")
            .severity(Severity::Warning)
            .confidence(Confidence::High)
            .title("Session bus unavailable")
            .summary("No session D-Bus could be reached, so runtime verification was skipped.".to_owned())
            .evidence(Evidence::MissingProvider)
            .explanation("Portal backends and the frontend communicate over the session bus; without it no portal call can succeed.")
            .impact("Every portal-dependent feature is effectively unusable in this session.")
            .recommendation("Verify DBUS_SESSION_BUS_ADDRESS and that dbus-daemon/dbus-broker is running for the user session.")
            .build())
    }
}

/// An outcome that means the backend cannot be reached or activated.
pub open spec fn is_failure(o: DbusOutcome) -> bool {
    match o {
        DbusOutcome::NoOwner => true,
        DbusOutcome::ActivationFailure => true,
        DbusOutcome::AccessDenied => true,
        DbusOutcome::MalformedResponse => true,
        DbusOutcome::Other(_) => true,
        _ => false,
    }
}

/// `t` names a backend check that failed.
pub open spec fn failing_name(checks: Seq<DbusCheck>, t: Seq<char>) -> bool {
    exists|i: int| 0 <= i < checks.len() && is_failure((#[trigger] checks[i]).outcome) && checks[i].name@ == t
}

pub open spec fn dbus002_fires(s: Snapshot) -> bool {
    &&& s.dbus.value matches Some(info) && info.connected
    &&& exists|t: Seq<char>| failing_name(snapshot_backend_checks(s), t)
}

pub open spec fn dbus002_summary(names: Seq<Seq<char>>) -> Seq<char> {
    "The following configured backend bus name(s) have no owner or failed to activate: "@ + join(names, ", "@) + "."@
}

/// DBUS002 — selected service/backend cannot be reached or activated.
pub struct Dbus002;

/// What `Dbus002::evaluate` returns for a snapshot.
pub open spec fn dbus002_output(s: Snapshot, r: Seq<Finding>) -> bool {
    &&& r.len() == if dbus002_fires(s) { 1int } else { 0int }
    &&& dbus002_fires(s) ==> {
            &&& dbus_finding_shape(r[0], "DBUS002"@, Severity::Warning, Confidence::High, Evidence::ServiceState)
            &&& exists|u: Seq<Seq<char>>| {
                &&& sorted_strict(u)
                &&& (forall|t: Seq<char>| #[trigger] u.contains(t) <==> failing_name(snapshot_backend_checks(s), t))
                &&& r[0].summary@ == dbus002_summary(u)
            }
        }
    &&& forall|i: int| 0 <= i < r.len() ==> finding_texts(#[trigger] r[i], "Selected service cannot be reached on the bus"@, "Portal calls routed to these backends will fail or time out even though the configuration looks correct."@, Some("Those backends are unusable until their bus names come back."@), seq!["Reinstall or repair the backend package; check `systemctl --user status` for its unit."@])
}

/// Every DBUS002 finding is complete.
pub proof fn lemma_dbus002_complete(s: Snapshot, r: Seq<Finding>)
    requires
        dbus002_output(s, r),
    ensures
        forall|i: int| 0 <= i < r.len() ==> finding_complete(#[trigger] r[i]),
{
    reveal_strlit("DBUS002");
    reveal_strlit("Selected service cannot be reached on the bus");
    reveal_strlit("Portal calls routed to these backends will fail or time out even though the configuration looks correct.");
    reveal_strlit("Those backends are unusable until their bus names come back.");
    reveal_strlit("Reinstall or repair the backend package; check `systemctl --user status` for its unit.");
    reveal_strlit("The following configured backend bus name(s) have no owner or failed to activate: ");
    reveal_strlit(", ");
    reveal_strlit(".");
    reveal_strlit("dbus");
    assert forall|i: int| 0 <= i < r.len() implies finding_complete(#[trigger] r[i]) by {
        lemma_texts_not_empty(r[i], "Selected service cannot be reached on the bus"@, "Portal calls routed to these backends will fail or time out even though the configuration looks correct."@, Some("Those backends are unusable until their bus names come back."@), seq!["Reinstall or repair the backend package; check `systemctl --user status` for its unit."@]);
    }
}

impl DiagnosticRule for Dbus002 {
    fn id(&self) -> (r: &'static str)
        ensures
            r@ == "DBUS002"@,
    {
        "DBUS002"
    }

    fn evaluate(&self, snapshot: &Snapshot) -> (r: Vec<Finding>)
        ensures
            dbus002_output(*snapshot, r@),
    {
        let connected = match &snapshot.dbus.value {
            Some(info) => info.connected,
            None => false,
        };
        if !connected {
            return Vec::new();
        }
        let checks = backend_checks(snapshot);
        let ghost bs = snapshot_backend_checks(*snapshot);
        let mut names: Vec<String> = Vec::new();
        let mut i: usize = 0;
        while i < checks.len()
            invariant
                i <= checks@.len(),
                checks@.len() == bs.len(),
                forall|k: int| 0 <= k < checks@.len() ==> #[trigger] checks@[k] == bs[k],
                sorted_strict(views(names@)),
                forall|t: Seq<char>| #[trigger] views(names@).contains(t) <==> failing_name(bs.take(i as int), t),
            decreases checks@.len() - i,
        {
            let c = checks[i];
            let failed = match &c.outcome {
                DbusOutcome::NoOwner => true,
                DbusOutcome::ActivationFailure => true,
                DbusOutcome::AccessDenied => true,
                DbusOutcome::MalformedResponse => true,
                DbusOutcome::Other(_) => true,
                _ => false,
            };
            if failed {
                insert_sorted(&mut names, c.name.as_str());
            }
            proof {
                assert(checks@[i as int] == bs[i as int]);
                assert forall|t: Seq<char>| #[trigger] views(names@).contains(t) <==> failing_name(bs.take(i + 1), t) by {
                    if failing_name(bs.take(i + 1), t) {
                        let k = choose|k: int| 0 <= k < bs.take(i + 1).len() && is_failure((#[trigger] bs.take(i + 1)[k]).outcome) && bs.take(i + 1)[k].name@ == t;
                        if k < i {
                            assert(bs.take(i as int)[k] == bs.take(i + 1)[k]);
                        }
                    }
                    if failing_name(bs.take(i as int), t) {
                        let k = choose|k: int| 0 <= k < bs.take(i as int).len() && is_failure((#[trigger] bs.take(i as int)[k]).outcome) && bs.take(i as int)[k].name@ == t;
                        assert(bs.take(i + 1)[k] == bs.take(i as int)[k]);
                    }
                    if failed && t == c.name@ {
                        assert(bs.take(i + 1)[i as int] == bs[i as int]);
                    }
                }
            }
            i = i + 1;
        }
        assert(bs.take(i as int) =~= bs);
        if names.len() == 0 {
            assert forall|t: Seq<char>| !failing_name(bs, t) by {
                if failing_name(bs, t) {
                    assert(views(names@).contains(t));
                }
            }
            return Vec::new();
        }
        assert(views(names@).contains(views(names@)[0])) by {
            assert(views(names@)[0] == views(names@)[0]);
        }
        let joined = join_strings(&names, ", ");
        let summary = concat3("The following configured backend bus name(s) have no owner or failed to activate: ", joined.as_str(), ".");
        one_finding(DbusFinding::new("DBUS002")
            .severity(Severity::Warning)
            .confidence(Confidence::High)
            .title("Selected service cannot be reached on the bus")
            .summary(summary)
            .evidence(Evidence::ServiceState)
            .explanation("Portal calls routed to these backends will fail or time out even though the configuration looks correct.")
            .impact("Those backends are unusable until their bus names come back.")
            .recommendation("Reinstall or repair the backend package; check `systemctl --user status` for its unit.")
            .build())
    }
}

/// The first check carrying `name`.
pub open spec fn first_named(checks: Seq<DbusCheck>, name: Seq<char>) -> Option<DbusCheck>
    decreases checks.len(),
{
    if checks.len() == 0 {
        None
    } else if checks[0].name@ == name {
        Some(checks[0])
    } else {
        first_named(checks.drop_first(), name)
    }
}

/// The frontend's check, where the collector made one.
pub open spec fn frontend_spec(s: Snapshot) -> Option<DbusCheck> {
    match s.dbus.value {
        Some(info) => first_named(info.checks@, PORTAL_FRONTEND_NAME@),
        None => None,
    }
}

fn frontend_outcome(snapshot: &Snapshot) -> (r: Option<(&str, &DbusOutcome)>)
    ensures
        match (r, frontend_spec(*snapshot)) {
            (Some((name, outcome)), Some(c)) => name@ == c.name@ && *outcome == c.outcome,
            (None, None) => true,
            _ => false,
        },
{
    let info = match &snapshot.dbus.value {
        Some(i) => i,
        None => return None,
    };
    let mut i: usize = 0;
    assert(info.checks@.subrange(0, info.checks@.len() as int) =~= info.checks@);
    while i < info.checks.len()
        invariant
            snapshot.dbus.value == Some(*info),
            i <= info.checks@.len(),
            first_named(info.checks@, PORTAL_FRONTEND_NAME@) == first_named(info.checks@.subrange(i as int, info.checks@.len() as int), PORTAL_FRONTEND_NAME@),
        decreases info.checks@.len() - i,
    {
        let c = &info.checks[i];
        let ghost rest = info.checks@.subrange(i as int, info.checks@.len() as int);
        assert(rest[0] == *c);
        if eq_str(c.name.as_str(), PORTAL_FRONTEND_NAME) {
            assert(rest.len() > 0 && rest[0].name@ == PORTAL_FRONTEND_NAME@);
            assert(first_named(rest, PORTAL_FRONTEND_NAME@) == Some(rest[0]));
            assert(frontend_spec(*snapshot) == Some(*c));
            let n = c.name.as_str();
            assert(n@ == c.name@);
            return Some((n, &c.outcome));
        }
        assert(rest.drop_first() =~= info.checks@.subrange(i + 1, info.checks@.len() as int));
        i = i + 1;
    }
    assert(info.checks@.subrange(i as int, info.checks@.len() as int).len() == 0);
    None
}

pub open spec fn xdp001_detail(c: DbusCheck) -> Seq<char> {
    match c.outcome {
        DbusOutcome::Timeout => "The query timed out; a wedged portal can hang clients."@,
        DbusOutcome::NoSessionBus => "There is no session bus to talk to."@,
        _ => c.name@ + " has no owner on the session bus."@,
    }
}

pub open spec fn xdp001_fires(s: Snapshot) -> bool {
    frontend_spec(s) matches Some(c) && !(c.outcome is HasOwner)
}

/// XDP001 — portal frontend cannot be discovered/reached.
pub struct Xdp001;

/// What `Xdp001::evaluate` returns for a snapshot.
pub open spec fn xdp001_output(s: Snapshot, r: Seq<Finding>) -> bool {
    &&& r.len() == if xdp001_fires(s) { 1int } else { 0int }
    &&& xdp001_fires(s) ==> {
            let c = frontend_spec(s).unwrap();
            let evidence = if c.outcome is Timeout { Evidence::DbusTimeout } else { Evidence::MissingProvider };
            &&& dbus_finding_shape(r[0], "XDP001"@, Severity::Warning, Confidence::High, evidence)
            &&& r[0].summary@ == "`"@ + c.name@ + "` is not reachable on the session bus. "@ + xdp001_detail(c)
        }
    &&& forall|i: int| 0 <= i < r.len() ==> finding_texts(#[trigger] r[i], "Portal frontend cannot be reached"@, "Without the frontend, every portal interface fails regardless of backend health."@, Some("Screen sharing, file choosers and settings propagation will not work."@), seq!["Check that xdg-desktop-portal is installed and running (`systemctl --user status xdg-desktop-portal`)."@])
}

/// Every XDP001 finding is complete.
pub proof fn lemma_xdp001_complete(s: Snapshot, r: Seq<Finding>)
    requires
        xdp001_output(s, r),
    ensures
        forall|i: int| 0 <= i < r.len() ==> finding_complete(#[trigger] r[i]),
{
    reveal_strlit("XDP001");
    reveal_strlit("`");
    reveal_strlit("` is not reachable on the session bus. ");
    reveal_strlit("Portal frontend cannot be reached");
    reveal_strlit("Without the frontend, every portal interface fails regardless of backend health.");
    reveal_strlit("Screen sharing, file choosers and settings propagation will not work.");
    reveal_strlit("Check that xdg-desktop-portal is installed and running (`systemctl --user status xdg-desktop-portal`).");
    reveal_strlit("The query timed out; a wedged portal can hang clients.");
    reveal_strlit("There is no session bus to talk to.");
    reveal_strlit(" has no owner on the session bus.");
    reveal_strlit("dbus");
    assert forall|i: int| 0 <= i < r.len() implies finding_complete(#[trigger] r[i]) by {
        lemma_texts_not_empty(r[i], "Portal frontend cannot be reached"@, "Without the frontend, every portal interface fails regardless of backend health."@, Some("Screen sharing, file choosers and settings propagation will not work."@), seq!["Check that xdg-desktop-portal is installed and running (`systemctl --user status xdg-desktop-portal`)."@]);
    }
}

impl DiagnosticRule for Xdp001 {
    fn id(&self) -> (r: &'static str)
        ensures
            r@ == "XDP001"@,
    {
        "XDP001"
    }

    fn evaluate(&self, snapshot: &Snapshot) -> (r: Vec<Finding>)
        ensures
            xdp001_output(*snapshot, r@),
    {
        let (name, outcome) = match frontend_outcome(snapshot) {
            Some(p) => p,
            None => return Vec::new(),
        };
        if matches!(outcome, DbusOutcome::HasOwner) {
            return Vec::new();
        }
        let detail = match outcome {
            DbusOutcome::Timeout => "The query timed out; a wedged portal can hang clients.".to_owned(),
            DbusOutcome::NoSessionBus => "There is no session bus to talk to.".to_owned(),
            _ => concat3(name, " has no owner on the session bus.", ""),
        };
        proof {
            reveal_strlit("");
        }
        let summary = concat4("`", name, "` is not reachable on the session bus. ", detail.as_str());
        let mut finding = DbusFinding::new("XDP001")
            .severity(Severity::Warning)
            .confidence(Confidence::High)
            .title("Portal frontend cannot be reached")
            .summary(summary)
            .evidence(Evidence::MissingProvider)
            .explanation("Without the frontend, every portal interface fails regardless of backend health.")
            .impact("Screen sharing, file choosers and settings propagation will not work.")
            .recommendation("Check that xdg-desktop-portal is installed and running (`systemctl --user status xdg-desktop-portal`).")
            .build();
        if matches!(outcome, DbusOutcome::Timeout) {
            finding.evidence = one_evidence(Evidence::DbusTimeout);
        }
        one_finding(finding)
    }
}

/// The frontend unit's state, when the frontend owns its bus name and the
/// unit was found.
pub open spec fn xdp002_state(s: Snapshot) -> Option<UnitState> {
    match frontend_spec(s) {
        Some(c) => if c.outcome is HasOwner {
            match s.services.value {
                Some(si) => {
                    let i = unit_index(si.units@, "xdg-desktop-portal.service"@);
                    if 0 <= i { Some(si.units@[i].state) } else { None }
                },
                None => None,
            }
        } else {
            None
        },
        None => None,
    }
}

pub open spec fn xdp002_fires(s: Snapshot) -> bool {
    xdp002_state(s) == Some(UnitState::Failed) || xdp002_state(s) == Some(UnitState::Inactive)
}

pub open spec fn xdp002_detail(s: Snapshot) -> Seq<char> {
    if xdp002_state(s) == Some(UnitState::Failed) {
        "unit reported failed"@
    } else {
        "unit inactive while owning the bus"@
    }
}

/// XDP002 — portal frontend runtime appears unhealthy.
pub struct Xdp002;

/// What `Xdp002::evaluate` returns for a snapshot.
pub open spec fn xdp002_output(s: Snapshot, r: Seq<Finding>) -> bool {
    &&& r.len() == if xdp002_fires(s) { 1int } else { 0int }
    &&& xdp002_fires(s) ==> {
            &&& dbus_finding_shape(r[0], "XDP002"@, Severity::Warning, Confidence::Medium, Evidence::ServiceState)
            &&& r[0].summary@ == "The frontend owns `"@ + PORTAL_FRONTEND_NAME@ + "` but its runtime appears unhealthy ("@ + xdp002_detail(s) + ")."@
        }
    &&& forall|i: int| 0 <= i < r.len() ==> finding_texts(#[trigger] r[i], "Portal frontend runtime appears unhealthy"@, "A half-alive frontend accepts connections but may misbehave or crash under load."@, Some("Portal calls may intermittently fail or hang until the frontend restarts."@), seq!["Restart the unit: systemctl --user restart xdg-desktop-portal.service"@])
}

/// Every XDP002 finding is complete.
pub proof fn lemma_xdp002_complete(s: Snapshot, r: Seq<Finding>)
    requires
        xdp002_output(s, r),
    ensures
        forall|i: int| 0 <= i < r.len() ==> finding_complete(#[trigger] r[i]),
{
    reveal_strlit("XDP002");
    reveal_strlit("The frontend owns `");
    reveal_strlit("` but its runtime appears unhealthy (");
    reveal_strlit(").");
    reveal_strlit("Portal frontend runtime appears unhealthy");
    reveal_strlit("A half-alive frontend accepts connections but may misbehave or crash under load.");
    reveal_strlit("Portal calls may intermittently fail or hang until the frontend restarts.");
    reveal_strlit("Restart the unit: systemctl --user restart xdg-desktop-portal.service");
    reveal_strlit("unit reported failed");
    reveal_strlit("unit inactive while owning the bus");
    reveal_strlit("dbus");
    assert forall|i: int| 0 <= i < r.len() implies finding_complete(#[trigger] r[i]) by {
        lemma_texts_not_empty(r[i], "Portal frontend runtime appears unhealthy"@, "A half-alive frontend accepts connections but may misbehave or crash under load."@, Some("Portal calls may intermittently fail or hang until the frontend restarts."@), seq!["Restart the unit: systemctl --user restart xdg-desktop-portal.service"@]);
    }
}

impl DiagnosticRule for Xdp002 {
    fn id(&self) -> (r: &'static str)
        ensures
            r@ == "XDP002"@,
    {
        "XDP002"
    }

    fn evaluate(&self, snapshot: &Snapshot) -> (r: Vec<Finding>)
        ensures
            xdp002_output(*snapshot, r@),
    {
        let outcome = match frontend_outcome(snapshot) {
            Some((_, o)) => o,
            None => return Vec::new(),
        };
        if !matches!(outcome, DbusOutcome::HasOwner) {
            return Vec::new();
        }
        let services = match &snapshot.services.value {
            Some(s) => s,
            None => return Vec::new(),
        };
        let unit = match services.unit(ServiceInfo::frontend_unit()) {
            Some(u) => u,
            None => return Vec::new(),
        };
        let unhealthy = unit.state == UnitState::Failed;
        let mut mismatched_owner = false;
        if unit.state == UnitState::Inactive {
            mismatched_owner = true;
        }
        if !unhealthy && !mismatched_owner {
            return Vec::new();
        }
        let detail = if unhealthy {
            "unit reported failed".to_owned()
        } else {
            "unit inactive while owning the bus".to_owned()
        };
        let mut summary = concat3("The frontend owns `", PORTAL_FRONTEND_NAME, "` but its runtime appears unhealthy (");
        crate::text::append(&mut summary, detail.as_str());
        crate::text::append(&mut summary, ").");
        one_finding(DbusFinding::new("XDP002")
            .severity(Severity::Warning)
            .confidence(Confidence::Medium)
            .title("Portal frontend runtime appears unhealthy")
            .summary(summary)
            .evidence(Evidence::ServiceState)
            .explanation("A half-alive frontend accepts connections but may misbehave or crash under load.")
            .impact("Portal calls may intermittently fail or hang until the frontend restarts.")
            .recommendation("Restart the unit: systemctl --user restart xdg-desktop-portal.service")
            .build())
    }
}

} // verus!
