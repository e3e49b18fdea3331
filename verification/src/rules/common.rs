//! Finding construction shared by the rule families.
use vstd::prelude::*;
use crate::model::evidence::Evidence;
use crate::model::finding::{Confidence, Finding, Severity};
use crate::text::{opt_view, views};

verus! {

/// The fixed texts of a finding: its title, explanation, impact and
/// recommendation steps.
pub open spec fn finding_texts(
    f: Finding,
    title: Seq<char>,
    explanation: Seq<char>,
    impact: Option<Seq<char>>,
    recommendation: Seq<Seq<char>>,
) -> bool {
    &&& f.title@ == title
    &&& f.explanation@ == explanation
    &&& opt_view(f.impact) == impact
    &&& views(f.recommendation@) == recommendation
}

/// What every finding carries: an ID, a title, a summary, evidence, a source
/// component and at least one recommendation step, none of them empty; an
/// impact that is not empty where there is one; and an explanation, except
/// for the portal-configuration findings, which carry none.
pub open spec fn finding_complete(f: Finding) -> bool {
    &&& f.id@.len() > 0
    &&& f.title@.len() > 0
    &&& f.summary@.len() > 0
    &&& f.evidence@.len() > 0
    &&& (f.impact matches Some(t) ==> t@.len() > 0)
    &&& f.recommendation@.len() > 0
    &&& (forall|j: int| 0 <= j < f.recommendation@.len() ==> (#[trigger] f.recommendation@[j])@.len() > 0)
    &&& f.source_component@.len() > 0
    &&& (f.source_component@ != "portal"@ ==> f.explanation@.len() > 0)
}

/// Non-empty fixed texts give a finding non-empty text fields.
pub proof fn lemma_texts_not_empty(
    f: Finding,
    title: Seq<char>,
    explanation: Seq<char>,
    impact: Option<Seq<char>>,
    recommendation: Seq<Seq<char>>,
)
    requires
        finding_texts(f, title, explanation, impact, recommendation),
        title.len() > 0,
        impact matches Some(t) ==> t.len() > 0,
        recommendation.len() > 0,
        forall|j: int| 0 <= j < recommendation.len() ==> (#[trigger] recommendation[j]).len() > 0,
    ensures
        f.title@.len() > 0,
        f.explanation@ == explanation,
        f.impact matches Some(t) ==> t@.len() > 0,
        f.recommendation@.len() > 0,
        forall|j: int| 0 <= j < f.recommendation@.len() ==> (#[trigger] f.recommendation@[j])@.len() > 0,
{
    assert forall|j: int| 0 <= j < f.recommendation@.len() implies (#[trigger] f.recommendation@[j])@.len() > 0 by {
        assert(views(f.recommendation@)[j] == f.recommendation@[j]@);
    }
}

/// Builds a finding from its parts.
pub fn build_finding(
    id: &str,
    severity: Severity,
    confidence: Confidence,
    title: &str,
    summary: String,
    explanation: &str,
    evidence: Vec<Evidence>,
    impact: Option<&str>,
    recommendation: Vec<String>,
    source_component: &str,
) -> (f: Finding)
    ensures
        f.id@ == id@,
        f.severity == severity,
        f.confidence == confidence,
        f.title@ == title@,
        f.summary@ == summary@,
        f.explanation@ == explanation@,
        f.evidence@ == evidence@,
        opt_view(f.impact) == match impact {
            Some(s) => Some(s@),
            None => None,
        },
        f.recommendation@ == recommendation@,
        f.source_component@ == source_component@,
{
    Finding {
        id: id.to_owned(),
        severity,
        confidence,
        title: title.to_owned(),
        summary,
        explanation: explanation.to_owned(),
        evidence,
        impact: match impact {
            Some(s) => Some(s.to_owned()),
            None => None,
        },
        recommendation,
        source_component: source_component.to_owned(),
    }
}

pub fn one_evidence(e: Evidence) -> (v: Vec<Evidence>)
    ensures
        v@ == seq![e],
{
    let mut v: Vec<Evidence> = Vec::new();
    v.push(e);
    assert(v@ =~= seq![e]);
    v
}

pub fn one_string(s: &str) -> (v: Vec<String>)
    ensures
        views(v@) == seq![s@],
        v@.len() == 1,
        v@[0]@ == s@,
{
    let mut v: Vec<String> = Vec::new();
    v.push(s.to_owned());
    assert(views(v@) =~= seq![s@]);
    v
}

pub fn two_strings(a: String, b: String) -> (v: Vec<String>)
    ensures
        views(v@) == seq![a@, b@],
        v@.len() == 2,
        v@[0]@ == a@,
        v@[1]@ == b@,
{
    let mut v: Vec<String> = Vec::new();
    v.push(a);
    v.push(b);
    assert(views(v@) =~= seq![a@, b@]);
    v
}

pub fn one_finding(f: Finding) -> (v: Vec<Finding>)
    ensures
        v@ == seq![f],
{
    let mut v: Vec<Finding> = Vec::new();
    v.push(f);
    assert(v@ =~= seq![f]);
    v
}

} // verus!
