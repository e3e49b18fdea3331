use std::collections::BTreeSet;

use portaldoctor::model::section::Section;
use portaldoctor::model::snapshot::Snapshot;
use portaldoctor::rules::engine::{evaluate, FINDING_IDS, rule_ids};

/// The registry is exactly the canonical runtime catalog.
#[test]
fn registry_matches_canonical_catalog() {
    assert_eq!(rule_ids().as_slice(), FINDING_IDS);
}

#[test]
fn catalog_ids_are_unique_and_well_formed() {
    let unique = FINDING_IDS.iter().copied().collect::<BTreeSet<_>>();
    assert_eq!(unique.len(), FINDING_IDS.len());
    assert!(FINDING_IDS.iter().all(|id| {
        let Some((prefix, number)) = id.len().checked_sub(3).map(|split| id.split_at(split))
        else {
            return false;
        };
        (2..=4).contains(&prefix.len())
            && prefix.bytes().all(|byte| byte.is_ascii_uppercase())
            && number.bytes().all(|byte| byte.is_ascii_digit())
    }));
}

#[test]
fn evaluated_findings_are_complete_and_only_portal_findings_lack_an_explanation() {
    let mut snapshot = Snapshot::new(0);
    snapshot.portal_backends = Section::available(Vec::new());
    let findings = evaluate(&snapshot);
    assert!(findings.iter().any(|finding| finding.id == "XDP003"));
    for finding in &findings {
        assert!(!finding.id.is_empty());
        assert!(!finding.title.is_empty());
        assert!(!finding.summary.is_empty());
        assert!(!finding.evidence.is_empty());
        assert!(finding.impact.as_deref().map_or(true, |impact| !impact.is_empty()));
        assert!(!finding.recommendation.is_empty());
        assert!(finding.recommendation.iter().all(|step| !step.is_empty()));
        assert!(!finding.source_component.is_empty());
        assert_eq!(finding.explanation.is_empty(), finding.source_component == "portal");
    }
    assert_eq!(evaluate(&snapshot), findings);
}
