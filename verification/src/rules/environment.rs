//! ENV001–ENV004: desktop identity, session type and activation environment.
use vstd::prelude::*;
use crate::model::environment::{EnvironmentRelation, EnvironmentValue, SessionType};
use crate::model::evidence::Evidence;
use crate::model::finding::{Confidence, Finding, Severity};
use crate::model::snapshot::Snapshot;
use crate::rules::common::{finding_complete, finding_texts, lemma_texts_not_empty, build_finding, one_evidence, one_finding, two_strings};
use crate::rules::engine::DiagnosticRule;
use crate::text::{append, concat2, concat3, debug_quote, debug_str, decimal, join, join_strings, opt_view, push_decimal, views};

verus! {

/// The shape every environment finding shares.
pub open spec fn env_finding_shape(f: Finding, id: Seq<char>, confidence: Confidence) -> bool {
    &&& f.id@ == id
    &&& f.severity == Severity::Warning
    &&& f.confidence == confidence
    &&& f.evidence@ == seq![Evidence::EnvironmentMismatch]
    &&& f.impact is Some
    &&& f.recommendation@.len() == 2
    &&& f.source_component@ == "environment"@
}

fn env_finding(
    id: &str,
    confidence: Confidence,
    title: &str,
    summary: String,
    explanation: &str,
    impact: &str,
    recommendations: Vec<String>,
) -> (f: Finding)
    requires
        recommendations@.len() == 2,
    ensures
        env_finding_shape(f, id@, confidence),
        f.title@ == title@,
        f.summary@ == summary@,
        f.explanation@ == explanation@,
        opt_view(f.impact) == Some(impact@),
        f.recommendation@ == recommendations@,
{
    build_finding(
        id,
        Severity::Warning,
        confidence,
        title,
        summary,
        explanation,
        one_evidence(Evidence::EnvironmentMismatch),
        Some(impact),
        recommendations,
        "environment",
    )
}

/// ENV001 — XDG desktop identity missing.
pub struct Env001;

pub open spec fn env001_fires(s: Snapshot) -> bool {
    s.session.value matches Some(session) && session.current_desktop is None
}

/// What `Env001::evaluate` returns for a snapshot.
pub open spec fn env001_output(s: Snapshot, r: Seq<Finding>) -> bool {
    &&& r.len() == if env001_fires(s) { 1int } else { 0int }
    &&& env001_fires(s) ==> env_finding_shape(r[0], "ENV001"@, Confidence::High)
            && r[0].summary@ == "XDG_CURRENT_DESKTOP is not set in this session."@
    &&& forall|i: int| 0 <= i < r.len() ==> finding_texts(#[trigger] r[i], "XDG desktop identity is missing"@, "Applications and portal frontends read XDG_CURRENT_DESKTOP to select desktop-specific behavior and portal configuration. Without it they fall back to generic defaults, which frequently breaks portal routing."@, Some("Portal backend selection and desktop-specific integrations may silently misbehave or fall back to the wrong backend."@), seq!["Start the graphical session through the normal desktop launcher so the session manager sets XDG_CURRENT_DESKTOP."@, "Re-run `portaldoctor check environment` afterwards."@])
}

/// Every ENV001 finding is complete.
pub proof fn lemma_env001_complete(s: Snapshot, r: Seq<Finding>)
    requires
        env001_output(s, r),
    ensures
        forall|i: int| 0 <= i < r.len() ==> finding_complete(#[trigger] r[i]),
{
    reveal_strlit("ENV001");
    reveal_strlit("XDG_CURRENT_DESKTOP is not set in this session.");
    reveal_strlit("XDG desktop identity is missing");
    reveal_strlit("Applications and portal frontends read XDG_CURRENT_DESKTOP to select desktop-specific behavior and portal configuration. Without it they fall back to generic defaults, which frequently breaks portal routing.");
    reveal_strlit("Portal backend selection and desktop-specific integrations may silently misbehave or fall back to the wrong backend.");
    reveal_strlit("Start the graphical session through the normal desktop launcher so the session manager sets XDG_CURRENT_DESKTOP.");
    reveal_strlit("Re-run `portaldoctor check environment` afterwards.");
    reveal_strlit("environment");
    assert forall|i: int| 0 <= i < r.len() implies finding_complete(#[trigger] r[i]) by {
        lemma_texts_not_empty(r[i], "XDG desktop identity is missing"@, "Applications and portal frontends read XDG_CURRENT_DESKTOP to select desktop-specific behavior and portal configuration. Without it they fall back to generic defaults, which frequently breaks portal routing."@, Some("Portal backend selection and desktop-specific integrations may silently misbehave or fall back to the wrong backend."@), seq!["Start the graphical session through the normal desktop launcher so the session manager sets XDG_CURRENT_DESKTOP."@, "Re-run `portaldoctor check environment` afterwards."@]);
    }
}

impl DiagnosticRule for Env001 {
    fn id(&self) -> (r: &'static str)
        ensures
            r@ == "ENV001"@,
    {
        "ENV001"
    }

    fn evaluate(&self, snapshot: &Snapshot) -> (r: Vec<Finding>)
        ensures
            env001_output(*snapshot, r@),
    {
        let session = match &snapshot.session.value {
            Some(s) => s,
            None => return Vec::new(),
        };
        if session.current_desktop.is_some() {
            return Vec::new();
        }
        one_finding(env_finding(
            "ENV001",
            Confidence::High,
            "XDG desktop identity is missing",
            "XDG_CURRENT_DESKTOP is not set in this session.".to_owned(),
            "Applications and portal frontends read XDG_CURRENT_DESKTOP to select desktop-specific behavior and portal configuration. Without it they fall back to generic defaults, which frequently breaks portal routing.",
            "Portal backend selection and desktop-specific integrations may silently misbehave or fall back to the wrong backend.",
            two_strings(
                "Start the graphical session through the normal desktop launcher so the session manager sets XDG_CURRENT_DESKTOP.".to_owned(),
                "Re-run `portaldoctor check environment` afterwards.".to_owned(),
            ),
        ))
    }
}

/// ENV002 — session type unavailable or unrecognized.
pub struct Env002;

pub open spec fn env002_fires(s: Snapshot) -> bool {
    s.session.value matches Some(session) && session.session_type is None
}

pub open spec fn env002_summary(raw: Option<Seq<char>>) -> Seq<char> {
    "PortalDoctor cannot determine the session type. "@ + match raw {
        Some(r) => "The reported value is "@ + debug_str(r) + ", which is not recognized."@,
        None => "No XDG_SESSION_TYPE value is present in this session."@,
    }
}

/// What `Env002::evaluate` returns for a snapshot.
pub open spec fn env002_output(s: Snapshot, r: Seq<Finding>) -> bool {
    &&& r.len() == if env002_fires(s) { 1int } else { 0int }
    &&& env002_fires(s) ==> env_finding_shape(r[0], "ENV002"@, Confidence::Medium)
            && r[0].summary@ == env002_summary(opt_view(s.session.value.unwrap().session_type_raw))
    &&& forall|i: int| 0 <= i < r.len() ==> finding_texts(#[trigger] r[i], "Session type is unavailable or unrecognized"@, "Wayland-specific and X11-specific diagnostics depend on knowing the session type. An absent or unrecognized XDG_SESSION_TYPE makes every downstream session check unreliable."@, Some("Session-specific findings may be incomplete or wrong; Wayland paths are not verifiable while the session type is unknown."@), seq!["Check how the session is started; display managers normally set XDG_SESSION_TYPE."@, "Re-run inside a regular desktop session rather than SSH or a bare TTY."@])
}

/// Every ENV002 finding is complete.
pub proof fn lemma_env002_complete(s: Snapshot, r: Seq<Finding>)
    requires
        env002_output(s, r),
    ensures
        forall|i: int| 0 <= i < r.len() ==> finding_complete(#[trigger] r[i]),
{
    reveal_strlit("ENV002");
    reveal_strlit("Session type is unavailable or unrecognized");
    reveal_strlit("Wayland-specific and X11-specific diagnostics depend on knowing the session type. An absent or unrecognized XDG_SESSION_TYPE makes every downstream session check unreliable.");
    reveal_strlit("Session-specific findings may be incomplete or wrong; Wayland paths are not verifiable while the session type is unknown.");
    reveal_strlit("Check how the session is started; display managers normally set XDG_SESSION_TYPE.");
    reveal_strlit("Re-run inside a regular desktop session rather than SSH or a bare TTY.");
    reveal_strlit("PortalDoctor cannot determine the session type. ");
    reveal_strlit("The reported value is ");
    reveal_strlit(", which is not recognized.");
    reveal_strlit("No XDG_SESSION_TYPE value is present in this session.");
    reveal_strlit("environment");
    assert forall|i: int| 0 <= i < r.len() implies finding_complete(#[trigger] r[i]) by {
        lemma_texts_not_empty(r[i], "Session type is unavailable or unrecognized"@, "Wayland-specific and X11-specific diagnostics depend on knowing the session type. An absent or unrecognized XDG_SESSION_TYPE makes every downstream session check unreliable."@, Some("Session-specific findings may be incomplete or wrong; Wayland paths are not verifiable while the session type is unknown."@), seq!["Check how the session is started; display managers normally set XDG_SESSION_TYPE."@, "Re-run inside a regular desktop session rather than SSH or a bare TTY."@]);
    }
}

impl DiagnosticRule for Env002 {
    fn id(&self) -> (r: &'static str)
        ensures
            r@ == "ENV002"@,
    {
        "ENV002"
    }

    fn evaluate(&self, snapshot: &Snapshot) -> (r: Vec<Finding>)
        ensures
            env002_output(*snapshot, r@),
    {
        let session = match &snapshot.session.value {
            Some(s) => s,
            None => return Vec::new(),
        };
        if session.session_type.is_some() {
            return Vec::new();
        }
        let observed = match &session.session_type_raw {
            Some(raw) => {
                let q = debug_quote(raw.as_str());
                concat3("The reported value is ", q.as_str(), ", which is not recognized.")
            },
            None => "No XDG_SESSION_TYPE value is present in this session.".to_owned(),
        };
        let summary = concat2("PortalDoctor cannot determine the session type. ", observed.as_str());
        one_finding(env_finding(
            "ENV002",
            Confidence::Medium,
            "Session type is unavailable or unrecognized",
            summary,
            "Wayland-specific and X11-specific diagnostics depend on knowing the session type. An absent or unrecognized XDG_SESSION_TYPE makes every downstream session check unreliable.",
            "Session-specific findings may be incomplete or wrong; Wayland paths are not verifiable while the session type is unknown.",
            two_strings(
                "Check how the session is started; display managers normally set XDG_SESSION_TYPE.".to_owned(),
                "Re-run inside a regular desktop session rather than SSH or a bare TTY.".to_owned(),
            ),
        ))
    }
}

/// ENV003 — Wayland session without a usable `WAYLAND_DISPLAY`.
pub struct Env003;

pub open spec fn env003_fires(s: Snapshot) -> bool {
    s.session.value matches Some(session) && session.session_type == Some(SessionType::Wayland)
        && session.wayland_display is None
}

/// What `Env003::evaluate` returns for a snapshot.
pub open spec fn env003_output(s: Snapshot, r: Seq<Finding>) -> bool {
    &&& r.len() == if env003_fires(s) { 1int } else { 0int }
    &&& env003_fires(s) ==> env_finding_shape(r[0], "ENV003"@, Confidence::High)
    &&& forall|i: int| 0 <= i < r.len() ==> finding_texts(#[trigger] r[i], "Wayland session without usable WAYLAND_DISPLAY"@, "Wayland clients locate the compositor through WAYLAND_DISPLAY inside XDG_RUNTIME_DIR. A wayland session without it means applications cannot connect natively; screen sharing portals depend on that connection."@, Some("Native Wayland application startup and ScreenCast portal usage will fail in this session."@), seq!["Verify the compositor was started as part of the graphical session and exports WAYLAND_DISPLAY."@, "Confirm XDG_RUNTIME_DIR points to the same runtime directory the compositor created its socket in."@])
    &&& forall|i: int| 0 <= i < r.len() ==> r[i].summary@ == "The session reports wayland, but WAYLAND_DISPLAY is not set, so clients cannot find the compositor socket."@
}

/// Every ENV003 finding is complete.
pub proof fn lemma_env003_complete(s: Snapshot, r: Seq<Finding>)
    requires
        env003_output(s, r),
    ensures
        forall|i: int| 0 <= i < r.len() ==> finding_complete(#[trigger] r[i]),
{
    reveal_strlit("ENV003");
    reveal_strlit("Wayland session without usable WAYLAND_DISPLAY");
    reveal_strlit("Wayland clients locate the compositor through WAYLAND_DISPLAY inside XDG_RUNTIME_DIR. A wayland session without it means applications cannot connect natively; screen sharing portals depend on that connection.");
    reveal_strlit("Native Wayland application startup and ScreenCast portal usage will fail in this session.");
    reveal_strlit("Verify the compositor was started as part of the graphical session and exports WAYLAND_DISPLAY.");
    reveal_strlit("Confirm XDG_RUNTIME_DIR points to the same runtime directory the compositor created its socket in.");
    reveal_strlit("The session reports wayland, but WAYLAND_DISPLAY is not set, so clients cannot find the compositor socket.");
    reveal_strlit("environment");
    assert forall|i: int| 0 <= i < r.len() implies finding_complete(#[trigger] r[i]) by {
        lemma_texts_not_empty(r[i], "Wayland session without usable WAYLAND_DISPLAY"@, "Wayland clients locate the compositor through WAYLAND_DISPLAY inside XDG_RUNTIME_DIR. A wayland session without it means applications cannot connect natively; screen sharing portals depend on that connection."@, Some("Native Wayland application startup and ScreenCast portal usage will fail in this session."@), seq!["Verify the compositor was started as part of the graphical session and exports WAYLAND_DISPLAY."@, "Confirm XDG_RUNTIME_DIR points to the same runtime directory the compositor created its socket in."@]);
    }
}

impl DiagnosticRule for Env003 {
    fn id(&self) -> (r: &'static str)
        ensures
            r@ == "ENV003"@,
    {
        "ENV003"
    }

    fn evaluate(&self, snapshot: &Snapshot) -> (r: Vec<Finding>)
        ensures
            env003_output(*snapshot, r@),
    {
        let session = match &snapshot.session.value {
            Some(s) => s,
            None => return Vec::new(),
        };
        if session.session_type != Some(SessionType::Wayland) {
            return Vec::new();
        }
        if session.wayland_display.is_some() {
            return Vec::new();
        }
        one_finding(env_finding(
            "ENV003",
            Confidence::High,
            "Wayland session without usable WAYLAND_DISPLAY",
            "The session reports wayland, but WAYLAND_DISPLAY is not set, so clients cannot find the compositor socket.".to_owned(),
            "Wayland clients locate the compositor through WAYLAND_DISPLAY inside XDG_RUNTIME_DIR. A wayland session without it means applications cannot connect natively; screen sharing portals depend on that connection.",
            "Native Wayland application startup and ScreenCast portal usage will fail in this session.",
            two_strings(
                "Verify the compositor was started as part of the graphical session and exports WAYLAND_DISPLAY.".to_owned(),
                "Confirm XDG_RUNTIME_DIR points to the same runtime directory the compositor created its socket in.".to_owned(),
            ),
        ))
    }
}

/// Comparison entries whose relation is not `Equal`, in order.
pub open spec fn mismatched(entries: Seq<EnvironmentValue>) -> Seq<EnvironmentValue>
    decreases entries.len(),
{
    if entries.len() == 0 {
        Seq::empty()
    } else if entries.last().relation != EnvironmentRelation::Equal {
        mismatched(entries.drop_last()).push(entries.last())
    } else {
        mismatched(entries.drop_last())
    }
}

/// ENV004 — session and activation environments disagree.
pub struct Env004;

pub open spec fn env004_fires(s: Snapshot) -> bool {
    s.environment.value matches Some(e) && e.activation_comparison.performed
        && mismatched(e.activation_comparison.entries@).len() > 0
}

pub open spec fn env004_summary(m: Seq<EnvironmentValue>) -> Seq<char> {
    decimal(m.len()) + " allowlisted variable(s) differ between this session and the systemd user activation environment: "@
        + join(m.map_values(|e: EnvironmentValue| e.key@), ", "@) + "."@
}

pub open spec fn env004_detail(e: EnvironmentValue) -> Seq<char> {
    e.key@ + ": "@ + e.relation.label_spec()
}

/// What `Env004::evaluate` returns for a snapshot.
pub open spec fn env004_output(s: Snapshot, r: Seq<Finding>) -> bool {
    &&& r.len() == if env004_fires(s) { 1int } else { 0int }
    &&& env004_fires(s) ==> ({
            let m = mismatched(s.environment.value.unwrap().activation_comparison.entries@);
            &&& env_finding_shape(r[0], "ENV004"@, Confidence::Medium)
            &&& r[0].summary@ == env004_summary(m)
            &&& r[0].recommendation@[0]@ == "Align both environments for these keys: "@
                + join(m.map_values(|e: EnvironmentValue| env004_detail(e)), "; "@) + "."@
        })
    &&& forall|i: int| 0 <= i < r.len() ==> finding_texts(#[trigger] r[i], "Session and systemd activation environments disagree"@, "Services activated by systemd --user inherit the activation environment, not the shell environment. When relevant variables such as XDG_CURRENT_DESKTOP or WAYLAND_DISPLAY diverge, portal backends started by systemd see a different desktop than the applications talking to them, a classic cause of broken portal routing."@, Some("Portal backends may run with stale or missing desktop context; symptoms include wrong file chooser style, missing screencast sources and settings not propagating."@), seq![r[i].recommendation@[0]@, "Update the session import/export units (e.g. dbus-update-activation-environment or environment.d) so the activation environment receives the same values."@])
}

/// Every ENV004 finding is complete.
pub proof fn lemma_env004_complete(s: Snapshot, r: Seq<Finding>)
    requires
        env004_output(s, r),
    ensures
        forall|i: int| 0 <= i < r.len() ==> finding_complete(#[trigger] r[i]),
{
    reveal_strlit("ENV004");
    reveal_strlit("Align both environments for these keys: ");
    reveal_strlit("; ");
    reveal_strlit(".");
    reveal_strlit("Session and systemd activation environments disagree");
    reveal_strlit("Services activated by systemd --user inherit the activation environment, not the shell environment. When relevant variables such as XDG_CURRENT_DESKTOP or WAYLAND_DISPLAY diverge, portal backends started by systemd see a different desktop than the applications talking to them, a classic cause of broken portal routing.");
    reveal_strlit("Portal backends may run with stale or missing desktop context; symptoms include wrong file chooser style, missing screencast sources and settings not propagating.");
    reveal_strlit("Update the session import/export units (e.g. dbus-update-activation-environment or environment.d) so the activation environment receives the same values.");
    reveal_strlit(": ");
    reveal_strlit(" allowlisted variable(s) differ between this session and the systemd user activation environment: ");
    reveal_strlit(", ");
    reveal_strlit("environment");
    assert forall|i: int| 0 <= i < r.len() implies finding_complete(#[trigger] r[i]) by {
        lemma_texts_not_empty(r[i], "Session and systemd activation environments disagree"@, "Services activated by systemd --user inherit the activation environment, not the shell environment. When relevant variables such as XDG_CURRENT_DESKTOP or WAYLAND_DISPLAY diverge, portal backends started by systemd see a different desktop than the applications talking to them, a classic cause of broken portal routing."@, Some("Portal backends may run with stale or missing desktop context; symptoms include wrong file chooser style, missing screencast sources and settings not propagating."@), seq![r[i].recommendation@[0]@, "Update the session import/export units (e.g. dbus-update-activation-environment or environment.d) so the activation environment receives the same values."@]);
    }
}

impl DiagnosticRule for Env004 {
    fn id(&self) -> (r: &'static str)
        ensures
            r@ == "ENV004"@,
    {
        "ENV004"
    }

    fn evaluate(&self, snapshot: &Snapshot) -> (r: Vec<Finding>)
        ensures
            env004_output(*snapshot, r@),
    {
        let environment = match &snapshot.environment.value {
            Some(e) => e,
            None => return Vec::new(),
        };
        let comparison = &environment.activation_comparison;
        if !comparison.performed {
            return Vec::new();
        }
        let entries = &comparison.entries;
        let mut keys: Vec<String> = Vec::new();
        let mut details: Vec<String> = Vec::new();
        let ghost ev = entries@;
        let mut i: usize = 0;
        while i < entries.len()
            invariant
                ev == entries@,
                i <= ev.len(),
                views(keys@) == mismatched(ev.take(i as int)).map_values(|e: EnvironmentValue| e.key@),
                views(details@) == mismatched(ev.take(i as int)).map_values(|e: EnvironmentValue| env004_detail(e)),
            decreases ev.len() - i,
        {
            let e = &entries[i];
            assert(ev.take(i + 1).drop_last() =~= ev.take(i as int));
            assert(ev.take(i + 1).last() == *e);
            if e.relation != EnvironmentRelation::Equal {
                let ghost kb = views(keys@);
                let ghost db = views(details@);
                keys.push(crate::text::clone_string(&e.key));
                details.push(concat3(e.key.as_str(), ": ", e.relation.as_str()));
                assert(views(keys@) =~= kb.push(e.key@));
                assert(views(details@) =~= db.push(env004_detail(*e)));
                assert(mismatched(ev.take(i + 1)) == mismatched(ev.take(i as int)).push(*e));
            }
            i = i + 1;
        }
        assert(ev.take(i as int) =~= ev);
        if keys.len() == 0 {
            return Vec::new();
        }
        let mut summary = String::new();
        push_decimal(&mut summary, keys.len() as u64);
        append(&mut summary, " allowlisted variable(s) differ between this session and the systemd user activation environment: ");
        let joined = join_strings(&keys, ", ");
        append(&mut summary, joined.as_str());
        append(&mut summary, ".");
        let detail_text = join_strings(&details, "; ");
        let first = concat3("Align both environments for these keys: ", detail_text.as_str(), ".");
        let f = env_finding(
            "ENV004",
            Confidence::Medium,
            "Session and systemd activation environments disagree",
            summary,
            "Services activated by systemd --user inherit the activation environment, not the shell environment. When relevant variables such as XDG_CURRENT_DESKTOP or WAYLAND_DISPLAY diverge, portal backends started by systemd see a different desktop than the applications talking to them, a classic cause of broken portal routing.",
            "Portal backends may run with stale or missing desktop context; symptoms include wrong file chooser style, missing screencast sources and settings not propagating.",
            two_strings(
                first,
                "Update the session import/export units (e.g. dbus-update-activation-environment or environment.d) so the activation environment receives the same values.".to_owned(),
            ),
        );
        assert(views(f.recommendation@)[0] == f.recommendation@[0]@);
        one_finding(f)
    }
}

} // verus!
