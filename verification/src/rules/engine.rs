//! The rule interface and the engine that evaluates the registry.
use vstd::prelude::*;
use crate::model::evidence::Evidence;
use crate::model::finding::{Confidence, Finding, Severity};
use crate::text::{join, lemma_sorted_strict_unique, opt_view, views};
use crate::model::snapshot::Snapshot;
use crate::rules::compatibility::{xdp006_output, Xdp006};
use crate::rules::dbus::{dbus001_output, dbus002_output, xdp001_output, xdp002_output, Dbus001, Dbus002, Xdp001, Xdp002};
use crate::rules::environment::{env001_output, env002_output, env003_output, env004_output, Env001, Env002, Env003, Env004};
use crate::rules::pipewire::{pw001_output, pw002_output, pw003_output, sc001_output, sc002_output, Pw001, Pw002, Pw003, Sc001, Sc002};
use crate::rules::portal::{
    cfg001_output, cfg002_output, cfg003_output, cfg004_output, xdp003_output, xdp004_output, xdp005_output,
    Cfg001, Cfg002, Cfg003, Cfg004, Xdp003, Xdp004, Xdp005,
};
use crate::text::{lemma_lt_transitive, seq_lt, sorted_strict};
use crate::rules::dbus::{dbus002_fires, dbus002_summary, failing_name, snapshot_backend_checks};
use crate::rules::portal::missing_backend;
use crate::rules::portal::{lemma_cfg001_complete, lemma_cfg002_complete, lemma_cfg003_complete, lemma_cfg004_complete, lemma_xdp003_complete, lemma_xdp004_complete, lemma_xdp005_complete};
use crate::rules::dbus::{lemma_dbus001_complete, lemma_dbus002_complete, lemma_xdp001_complete, lemma_xdp002_complete};
use crate::rules::environment::{lemma_env001_complete, lemma_env002_complete, lemma_env003_complete, lemma_env004_complete};
use crate::rules::pipewire::{lemma_pw001_complete, lemma_pw002_complete, lemma_pw003_complete, lemma_sc001_complete, lemma_sc002_complete};
use crate::rules::compatibility::{lemma_xdp006_complete};
use crate::rules::common::finding_complete;

verus! {

/// Deterministic diagnostic rule that consumes a snapshot only.
pub trait DiagnosticRule {
    /// Stable rule identifier, e.g. `"ENV001"`.
    fn id(&self) -> &'static str;

    /// Evaluate the snapshot and return zero or more findings.
    fn evaluate(&self, snapshot: &Snapshot) -> Vec<Finding>;
}

/// Canonical public finding catalog, in lexicographic order. Every rule
/// exposes exactly one of these stable IDs.
pub const FINDING_IDS: [&'static str; 21] = [
    "CFG001", "CFG002", "CFG003", "CFG004", "DBUS001", "DBUS002", "ENV001", "ENV002", "ENV003",
    "ENV004", "PW001", "PW002", "PW003", "SC001", "SC002", "XDP001", "XDP002", "XDP003", "XDP004",
    "XDP005", "XDP006",
];

/// The catalog as character sequences.
pub open spec fn catalog() -> Seq<Seq<char>> {
    seq![
        "CFG001"@, "CFG002"@, "CFG003"@, "CFG004"@, "DBUS001"@, "DBUS002"@, "ENV001"@, "ENV002"@, "ENV003"@,
        "ENV004"@, "PW001"@, "PW002"@, "PW003"@, "SC001"@, "SC002"@, "XDP001"@, "XDP002"@, "XDP003"@, "XDP004"@,
        "XDP005"@, "XDP006"@,
    ]
}

/// What the rule at catalog position `k` returns for `s`.
pub open spec fn rule_output(k: int, s: Snapshot, out: Seq<Finding>) -> bool {
    if k == 0 { cfg001_output(s, out) }
    else if k == 1 { cfg002_output(s, out) }
    else if k == 2 { cfg003_output(s, out) }
    else if k == 3 { cfg004_output(s, out) }
    else if k == 4 { dbus001_output(s, out) }
    else if k == 5 { dbus002_output(s, out) }
    else if k == 6 { env001_output(s, out) }
    else if k == 7 { env002_output(s, out) }
    else if k == 8 { env003_output(s, out) }
    else if k == 9 { env004_output(s, out) }
    else if k == 10 { pw001_output(s, out) }
    else if k == 11 { pw002_output(s, out) }
    else if k == 12 { pw003_output(s, out) }
    else if k == 13 { sc001_output(s, out) }
    else if k == 14 { sc002_output(s, out) }
    else if k == 15 { xdp001_output(s, out) }
    else if k == 16 { xdp002_output(s, out) }
    else if k == 17 { xdp003_output(s, out) }
    else if k == 18 { xdp004_output(s, out) }
    else if k == 19 { xdp005_output(s, out) }
    else { xdp006_output(s, out) }
}

/// Every finding carries the given rule ID.
pub open spec fn all_with_id(out: Seq<Finding>, id: Seq<char>) -> bool {
    forall|i: int| 0 <= i < out.len() ==> (#[trigger] out[i]).id@ == id
}

/// Findings ordered by rule ID (equal IDs keep their relative order).
pub open spec fn sorted_by_id(out: Seq<Finding>) -> bool {
    forall|i: int, j: int| 0 <= i < j < out.len() ==> !seq_lt((#[trigger] out[j]).id@, (#[trigger] out[i]).id@)
}

proof fn lemma_catalog_adjacent()
    ensures
        catalog().len() == 21,
        forall|k: int| 0 <= k < 20 ==> seq_lt(#[trigger] catalog()[k], catalog()[k + 1]),
{
    reveal_strlit("CFG001");
    reveal_strlit("CFG002");
    reveal_strlit("CFG003");
    reveal_strlit("CFG004");
    reveal_strlit("DBUS001");
    reveal_strlit("DBUS002");
    reveal_strlit("ENV001");
    reveal_strlit("ENV002");
    reveal_strlit("ENV003");
    reveal_strlit("ENV004");
    reveal_strlit("PW001");
    reveal_strlit("PW002");
    reveal_strlit("PW003");
    reveal_strlit("SC001");
    reveal_strlit("SC002");
    reveal_strlit("XDP001");
    reveal_strlit("XDP002");
    reveal_strlit("XDP003");
    reveal_strlit("XDP004");
    reveal_strlit("XDP005");
    reveal_strlit("XDP006");
    reveal_with_fuel(seq_lt, 8);
    assert forall|k: int| 0 <= k < 20 implies seq_lt(#[trigger] catalog()[k], catalog()[k + 1]) by {
        let a = catalog()[k];
        let b = catalog()[k + 1];
        assert(a.drop_first().drop_first().drop_first().drop_first().drop_first()
            =~= a.subrange(5, a.len() as int));
        assert(b.drop_first().drop_first().drop_first().drop_first().drop_first()
            =~= b.subrange(5, b.len() as int));
    }
}

/// The catalog is strictly increasing, hence free of duplicates.
pub proof fn law_catalog_sorted()
    ensures
        sorted_strict(catalog()),
{
    lemma_catalog_adjacent();
    assert forall|i: int, j: int| 0 <= i < j < catalog().len() implies seq_lt(#[trigger] catalog()[i], #[trigger] catalog()[j]) by {
        lemma_catalog_chain(i, j);
    }
}

proof fn lemma_catalog_chain(i: int, j: int)
    requires
        0 <= i < j < 21,
    ensures
        seq_lt(catalog()[i], catalog()[j]),
    decreases j - i,
{
    lemma_catalog_adjacent();
    if j > i + 1 {
        lemma_catalog_chain(i, j - 1);
        assert(seq_lt(catalog()[j - 1], catalog()[j]));
        lemma_lt_transitive(catalog()[i], catalog()[j - 1], catalog()[j]);
    } else {
        assert(seq_lt(catalog()[i], catalog()[i + 1]));
    }
}

/// Each rule's findings carry that rule's catalog ID.
proof fn lemma_output_ids(k: int, s: Snapshot, out: Seq<Finding>)
    requires
        0 <= k < 21,
        rule_output(k, s, out),
    ensures
        all_with_id(out, catalog()[k]),
{
}

/// Append one rule's findings, keeping the order by rule ID.
fn push_segment(out: &mut Vec<Finding>, seg: Vec<Finding>, Ghost(prev): Ghost<Seq<char>>, Ghost(id): Ghost<Seq<char>>)
    requires
        sorted_by_id(old(out)@),
        forall|i: int| 0 <= i < old(out)@.len() ==> !seq_lt(prev, (#[trigger] old(out)@[i]).id@),
        prev == id || seq_lt(prev, id),
        all_with_id(seg@, id),
        forall|i: int| 0 <= i < old(out)@.len() ==> catalog().contains((#[trigger] old(out)@[i]).id@),
        catalog().contains(id),
    ensures
        forall|i: int| 0 <= i < final(out)@.len() ==> catalog().contains((#[trigger] final(out)@[i]).id@),
        final(out)@ == old(out)@ + seg@,
        sorted_by_id(final(out)@),
        forall|i: int| 0 <= i < final(out)@.len() ==> !seq_lt(id, (#[trigger] final(out)@[i]).id@),
{
    let ghost before = out@;
    let mut seg = seg;
    out.append(&mut seg);
    assert forall|i: int| 0 <= i < before.len() implies !seq_lt(id, (#[trigger] before[i]).id@) by {
        if seq_lt(id, before[i].id@) && prev != id {
            lemma_lt_transitive(prev, id, before[i].id@);
        }
    }
    assert forall|i: int, j: int| 0 <= i < j < out@.len() implies !seq_lt((#[trigger] out@[j]).id@, (#[trigger] out@[i]).id@) by {
        if j >= before.len() {
            assert(out@[j].id@ == id);
            if i >= before.len() {
                crate::text::lemma_lt_irreflexive(id);
            } else {
                assert(out@[i] == before[i]);
            }
        } else {
            assert(out@[i] == before[i] && out@[j] == before[j]);
        }
    }
    assert forall|i: int| 0 <= i < out@.len() implies catalog().contains((#[trigger] out@[i]).id@) by {
        if i < before.len() {
            assert(out@[i] == before[i]);
        }
    }
    assert forall|i: int| 0 <= i < out@.len() implies !seq_lt(id, (#[trigger] out@[i]).id@) by {
        if i >= before.len() {
            crate::text::lemma_lt_irreflexive(id);
        } else {
            assert(out@[i] == before[i]);
        }
    }
}

/// Stable IDs of the rule registry, in deterministic evaluation order
/// (lexicographic).
pub fn rule_ids() -> (r: Vec<&'static str>)
    ensures
        r@.len() == catalog().len(),
        forall|k: int| 0 <= k < r@.len() ==> (#[trigger] r@[k])@ == catalog()[k],
{
    let mut ids: Vec<&'static str> = Vec::new();
    ids.push(Cfg001.id());
    ids.push(Cfg002.id());
    ids.push(Cfg003.id());
    ids.push(Cfg004.id());
    ids.push(Dbus001.id());
    ids.push(Dbus002.id());
    ids.push(Env001.id());
    ids.push(Env002.id());
    ids.push(Env003.id());
    ids.push(Env004.id());
    ids.push(Pw001.id());
    ids.push(Pw002.id());
    ids.push(Pw003.id());
    ids.push(Sc001.id());
    ids.push(Sc002.id());
    ids.push(Xdp001.id());
    ids.push(Xdp002.id());
    ids.push(Xdp003.id());
    ids.push(Xdp004.id());
    ids.push(Xdp005.id());
    ids.push(Xdp006.id());
    ids
}

/// `r` is what evaluating `s` gives: every rule's output, concatenated in
/// catalog order.
pub open spec fn evaluation(s: Snapshot, r: Seq<Finding>) -> bool {
    exists|segs: Seq<Seq<Finding>>| {
        &&& segs.len() == catalog().len()
        &&& r == segs.flatten()
        &&& forall|k: int| 0 <= k < segs.len() ==> rule_output(k, s, #[trigger] segs[k])
    }
}

/// Everything a finding says.
pub open spec fn finding_view(f: Finding) -> (
    Seq<char>,
    Severity,
    Confidence,
    Seq<char>,
    Seq<char>,
    Seq<char>,
    Seq<Evidence>,
    Option<Seq<char>>,
    Seq<Seq<char>>,
    Seq<char>,
) {
    (
        f.id@,
        f.severity,
        f.confidence,
        f.title@,
        f.summary@,
        f.explanation@,
        f.evidence@,
        opt_view(f.impact),
        views(f.recommendation@),
        f.source_component@,
    )
}

pub open spec fn findings_view(r: Seq<Finding>) -> Seq<(
    Seq<char>,
    Severity,
    Confidence,
    Seq<char>,
    Seq<char>,
    Seq<char>,
    Seq<Evidence>,
    Option<Seq<char>>,
    Seq<Seq<char>>,
    Seq<char>,
)> {
    r.map_values(|f: Finding| finding_view(f))
}

proof fn lemma_cfg001_unique(s: Snapshot, a: Seq<Finding>, b: Seq<Finding>)
    requires
        cfg001_output(s, a),
        cfg001_output(s, b),
    ensures
        findings_view(a) == findings_view(b),
{
    assert forall|i: int| 0 <= i < a.len() implies finding_view(#[trigger] a[i]) == finding_view(b[i]) by {
        assert(a[i] == a[i] && b[i] == b[i]);
    }
    assert(findings_view(a) =~= findings_view(b));
}

proof fn lemma_cfg002_unique(s: Snapshot, a: Seq<Finding>, b: Seq<Finding>)
    requires
        cfg002_output(s, a),
        cfg002_output(s, b),
    ensures
        findings_view(a) == findings_view(b),
{
    assert forall|i: int| 0 <= i < a.len() implies finding_view(#[trigger] a[i]) == finding_view(b[i]) by {
        assert(a[i] == a[i] && b[i] == b[i]);
    }
    assert(findings_view(a) =~= findings_view(b));
}

proof fn lemma_cfg003_unique(s: Snapshot, a: Seq<Finding>, b: Seq<Finding>)
    requires
        cfg003_output(s, a),
        cfg003_output(s, b),
    ensures
        findings_view(a) == findings_view(b),
{
    assert forall|i: int| 0 <= i < a.len() implies finding_view(#[trigger] a[i]) == finding_view(b[i]) by {
        assert(a[i] == a[i] && b[i] == b[i]);
    }
    assert(findings_view(a) =~= findings_view(b));
}

proof fn lemma_cfg004_unique(s: Snapshot, a: Seq<Finding>, b: Seq<Finding>)
    requires
        cfg004_output(s, a),
        cfg004_output(s, b),
    ensures
        findings_view(a) == findings_view(b),
{
    assert forall|i: int| 0 <= i < a.len() implies finding_view(#[trigger] a[i]) == finding_view(b[i]) by {
        assert(a[i] == a[i] && b[i] == b[i]);
    }
    assert(findings_view(a) =~= findings_view(b));
}

proof fn lemma_dbus001_unique(s: Snapshot, a: Seq<Finding>, b: Seq<Finding>)
    requires
        dbus001_output(s, a),
        dbus001_output(s, b),
    ensures
        findings_view(a) == findings_view(b),
{
    assert forall|i: int| 0 <= i < a.len() implies finding_view(#[trigger] a[i]) == finding_view(b[i]) by {
        assert(a[i] == a[i] && b[i] == b[i]);
    }
    assert(findings_view(a) =~= findings_view(b));
}

proof fn lemma_dbus002_unique(s: Snapshot, a: Seq<Finding>, b: Seq<Finding>)
    requires
        dbus002_output(s, a),
        dbus002_output(s, b),
    ensures
        findings_view(a) == findings_view(b),
{
    if dbus002_fires(s) {
        let checks = snapshot_backend_checks(s);
        let ua = choose|u: Seq<Seq<char>>| {
            &&& sorted_strict(u)
            &&& (forall|t: Seq<char>| #[trigger] u.contains(t) <==> failing_name(checks, t))
            &&& a[0].summary@ == dbus002_summary(u)
        };
        let ub = choose|u: Seq<Seq<char>>| {
            &&& sorted_strict(u)
            &&& (forall|t: Seq<char>| #[trigger] u.contains(t) <==> failing_name(checks, t))
            &&& b[0].summary@ == dbus002_summary(u)
        };
        lemma_sorted_strict_unique(ua, ub);
    }
    assert forall|i: int| 0 <= i < a.len() implies finding_view(#[trigger] a[i]) == finding_view(b[i]) by {
        assert(a[i] == a[i] && b[i] == b[i]);
    }
    assert(findings_view(a) =~= findings_view(b));
}

proof fn lemma_env001_unique(s: Snapshot, a: Seq<Finding>, b: Seq<Finding>)
    requires
        env001_output(s, a),
        env001_output(s, b),
    ensures
        findings_view(a) == findings_view(b),
{
    assert forall|i: int| 0 <= i < a.len() implies finding_view(#[trigger] a[i]) == finding_view(b[i]) by {
        assert(a[i] == a[i] && b[i] == b[i]);
    }
    assert(findings_view(a) =~= findings_view(b));
}

proof fn lemma_env002_unique(s: Snapshot, a: Seq<Finding>, b: Seq<Finding>)
    requires
        env002_output(s, a),
        env002_output(s, b),
    ensures
        findings_view(a) == findings_view(b),
{
    assert forall|i: int| 0 <= i < a.len() implies finding_view(#[trigger] a[i]) == finding_view(b[i]) by {
        assert(a[i] == a[i] && b[i] == b[i]);
    }
    assert(findings_view(a) =~= findings_view(b));
}

proof fn lemma_env003_unique(s: Snapshot, a: Seq<Finding>, b: Seq<Finding>)
    requires
        env003_output(s, a),
        env003_output(s, b),
    ensures
        findings_view(a) == findings_view(b),
{
    assert forall|i: int| 0 <= i < a.len() implies finding_view(#[trigger] a[i]) == finding_view(b[i]) by {
        assert(a[i] == a[i] && b[i] == b[i]);
    }
    assert(findings_view(a) =~= findings_view(b));
}

proof fn lemma_env004_unique(s: Snapshot, a: Seq<Finding>, b: Seq<Finding>)
    requires
        env004_output(s, a),
        env004_output(s, b),
    ensures
        findings_view(a) == findings_view(b),
{
    assert forall|i: int| 0 <= i < a.len() implies finding_view(#[trigger] a[i]) == finding_view(b[i]) by {
        assert(a[i] == a[i] && b[i] == b[i]);
    }
    assert(findings_view(a) =~= findings_view(b));
}

proof fn lemma_pw001_unique(s: Snapshot, a: Seq<Finding>, b: Seq<Finding>)
    requires
        pw001_output(s, a),
        pw001_output(s, b),
    ensures
        findings_view(a) == findings_view(b),
{
    assert forall|i: int| 0 <= i < a.len() implies finding_view(#[trigger] a[i]) == finding_view(b[i]) by {
        assert(a[i] == a[i] && b[i] == b[i]);
    }
    assert(findings_view(a) =~= findings_view(b));
}

proof fn lemma_pw002_unique(s: Snapshot, a: Seq<Finding>, b: Seq<Finding>)
    requires
        pw002_output(s, a),
        pw002_output(s, b),
    ensures
        findings_view(a) == findings_view(b),
{
    assert forall|i: int| 0 <= i < a.len() implies finding_view(#[trigger] a[i]) == finding_view(b[i]) by {
        assert(a[i] == a[i] && b[i] == b[i]);
    }
    assert(findings_view(a) =~= findings_view(b));
}

proof fn lemma_pw003_unique(s: Snapshot, a: Seq<Finding>, b: Seq<Finding>)
    requires
        pw003_output(s, a),
        pw003_output(s, b),
    ensures
        findings_view(a) == findings_view(b),
{
    assert forall|i: int| 0 <= i < a.len() implies finding_view(#[trigger] a[i]) == finding_view(b[i]) by {
        assert(a[i] == a[i] && b[i] == b[i]);
    }
    assert(findings_view(a) =~= findings_view(b));
}

proof fn lemma_sc001_unique(s: Snapshot, a: Seq<Finding>, b: Seq<Finding>)
    requires
        sc001_output(s, a),
        sc001_output(s, b),
    ensures
        findings_view(a) == findings_view(b),
{
    assert forall|i: int| 0 <= i < a.len() implies finding_view(#[trigger] a[i]) == finding_view(b[i]) by {
        assert(a[i] == a[i] && b[i] == b[i]);
    }
    assert(findings_view(a) =~= findings_view(b));
}

proof fn lemma_sc002_unique(s: Snapshot, a: Seq<Finding>, b: Seq<Finding>)
    requires
        sc002_output(s, a),
        sc002_output(s, b),
    ensures
        findings_view(a) == findings_view(b),
{
    assert forall|i: int| 0 <= i < a.len() implies finding_view(#[trigger] a[i]) == finding_view(b[i]) by {
        assert(a[i] == a[i] && b[i] == b[i]);
    }
    assert(findings_view(a) =~= findings_view(b));
}

proof fn lemma_xdp001_unique(s: Snapshot, a: Seq<Finding>, b: Seq<Finding>)
    requires
        xdp001_output(s, a),
        xdp001_output(s, b),
    ensures
        findings_view(a) == findings_view(b),
{
    assert forall|i: int| 0 <= i < a.len() implies finding_view(#[trigger] a[i]) == finding_view(b[i]) by {
        assert(a[i] == a[i] && b[i] == b[i]);
    }
    assert(findings_view(a) =~= findings_view(b));
}

proof fn lemma_xdp002_unique(s: Snapshot, a: Seq<Finding>, b: Seq<Finding>)
    requires
        xdp002_output(s, a),
        xdp002_output(s, b),
    ensures
        findings_view(a) == findings_view(b),
{
    assert forall|i: int| 0 <= i < a.len() implies finding_view(#[trigger] a[i]) == finding_view(b[i]) by {
        assert(a[i] == a[i] && b[i] == b[i]);
    }
    assert(findings_view(a) =~= findings_view(b));
}

proof fn lemma_xdp003_unique(s: Snapshot, a: Seq<Finding>, b: Seq<Finding>)
    requires
        xdp003_output(s, a),
        xdp003_output(s, b),
    ensures
        findings_view(a) == findings_view(b),
{
    assert forall|i: int| 0 <= i < a.len() implies finding_view(#[trigger] a[i]) == finding_view(b[i]) by {
        assert(a[i] == a[i] && b[i] == b[i]);
    }
    assert(findings_view(a) =~= findings_view(b));
}

proof fn lemma_xdp004_unique(s: Snapshot, a: Seq<Finding>, b: Seq<Finding>)
    requires
        xdp004_output(s, a),
        xdp004_output(s, b),
    ensures
        findings_view(a) == findings_view(b),
{
    assert forall|i: int| 0 <= i < a.len() implies finding_view(#[trigger] a[i]) == finding_view(b[i]) by {
        assert(a[i] == a[i] && b[i] == b[i]);
    }
    assert(findings_view(a) =~= findings_view(b));
}

proof fn lemma_xdp005_unique(s: Snapshot, a: Seq<Finding>, b: Seq<Finding>)
    requires
        xdp005_output(s, a),
        xdp005_output(s, b),
    ensures
        findings_view(a) == findings_view(b),
{
    if let (Some(config), Some(backends)) = (s.portal_config.value, s.portal_backends.value) {
        if exists|t: Seq<char>| missing_backend(config.preferences@, backends@, t) {
            let ua = choose|u: Seq<Seq<char>>| {
                &&& sorted_strict(u)
                &&& (forall|t: Seq<char>| #[trigger] u.contains(t) <==> missing_backend(config.preferences@, backends@, t))
                &&& a[0].summary@ == "The selected `portals.conf` references backend(s) with no discovered descriptor: "@ + join(u, ", "@) + "."@
            };
            let ub = choose|u: Seq<Seq<char>>| {
                &&& sorted_strict(u)
                &&& (forall|t: Seq<char>| #[trigger] u.contains(t) <==> missing_backend(config.preferences@, backends@, t))
                &&& b[0].summary@ == "The selected `portals.conf` references backend(s) with no discovered descriptor: "@ + join(u, ", "@) + "."@
            };
            lemma_sorted_strict_unique(ua, ub);
        }
    }
    assert forall|i: int| 0 <= i < a.len() implies finding_view(#[trigger] a[i]) == finding_view(b[i]) by {
        assert(a[i] == a[i] && b[i] == b[i]);
    }
    assert(findings_view(a) =~= findings_view(b));
}

proof fn lemma_xdp006_unique(s: Snapshot, a: Seq<Finding>, b: Seq<Finding>)
    requires
        xdp006_output(s, a),
        xdp006_output(s, b),
    ensures
        findings_view(a) == findings_view(b),
{
    assert forall|i: int| 0 <= i < a.len() implies finding_view(#[trigger] a[i]) == finding_view(b[i]) by {
        assert(a[i] == a[i] && b[i] == b[i]);
    }
    assert(findings_view(a) =~= findings_view(b));
}

/// Each rule's output is fixed by the snapshot.
proof fn lemma_rule_output_unique(k: int, s: Snapshot, a: Seq<Finding>, b: Seq<Finding>)
    requires
        0 <= k < 21,
        rule_output(k, s, a),
        rule_output(k, s, b),
    ensures
        findings_view(a) == findings_view(b),
{
    if k == 0 {
        lemma_cfg001_unique(s, a, b);
    } else if k == 1 {
        lemma_cfg002_unique(s, a, b);
    } else if k == 2 {
        lemma_cfg003_unique(s, a, b);
    } else if k == 3 {
        lemma_cfg004_unique(s, a, b);
    } else if k == 4 {
        lemma_dbus001_unique(s, a, b);
    } else if k == 5 {
        lemma_dbus002_unique(s, a, b);
    } else if k == 6 {
        lemma_env001_unique(s, a, b);
    } else if k == 7 {
        lemma_env002_unique(s, a, b);
    } else if k == 8 {
        lemma_env003_unique(s, a, b);
    } else if k == 9 {
        lemma_env004_unique(s, a, b);
    } else if k == 10 {
        lemma_pw001_unique(s, a, b);
    } else if k == 11 {
        lemma_pw002_unique(s, a, b);
    } else if k == 12 {
        lemma_pw003_unique(s, a, b);
    } else if k == 13 {
        lemma_sc001_unique(s, a, b);
    } else if k == 14 {
        lemma_sc002_unique(s, a, b);
    } else if k == 15 {
        lemma_xdp001_unique(s, a, b);
    } else if k == 16 {
        lemma_xdp002_unique(s, a, b);
    } else if k == 17 {
        lemma_xdp003_unique(s, a, b);
    } else if k == 18 {
        lemma_xdp004_unique(s, a, b);
    } else if k == 19 {
        lemma_xdp005_unique(s, a, b);
    } else {
        lemma_xdp006_unique(s, a, b);
    }
}

proof fn lemma_flatten_views(x: Seq<Seq<Finding>>, y: Seq<Seq<Finding>>)
    requires
        x.len() == y.len(),
        forall|k: int| 0 <= k < x.len() ==> findings_view(#[trigger] x[k]) == findings_view(y[k]),
    ensures
        findings_view(x.flatten()) == findings_view(y.flatten()),
    decreases x.len(),
{
    if x.len() > 0 {
        let (xi, yi) = (x.drop_last(), y.drop_last());
        lemma_flatten_views(xi, yi);
        xi.lemma_flatten_push(x.last());
        yi.lemma_flatten_push(y.last());
        assert(xi.push(x.last()) =~= x);
        assert(yi.push(y.last()) =~= y);
        assert(findings_view(x.last()) == findings_view(y.last()));
        assert(findings_view(xi.flatten() + x.last()) =~= findings_view(xi.flatten()) + findings_view(x.last()));
        assert(findings_view(yi.flatten() + y.last()) =~= findings_view(yi.flatten()) + findings_view(y.last()));
    } else {
        assert(x.flatten() =~= Seq::<Finding>::empty());
        assert(y.flatten() =~= Seq::<Finding>::empty());
    }
}

/// Evaluation is deterministic: the same snapshot always yields the same
/// findings, in the same order, with the same texts.
pub proof fn law_evaluation_is_deterministic(s: Snapshot, a: Seq<Finding>, b: Seq<Finding>)
    requires
        evaluation(s, a),
        evaluation(s, b),
    ensures
        findings_view(a) == findings_view(b),
{
    let sa = choose|segs: Seq<Seq<Finding>>| {
        &&& segs.len() == catalog().len()
        &&& a == segs.flatten()
        &&& forall|k: int| 0 <= k < segs.len() ==> rule_output(k, s, #[trigger] segs[k])
    };
    let sb = choose|segs: Seq<Seq<Finding>>| {
        &&& segs.len() == catalog().len()
        &&& b == segs.flatten()
        &&& forall|k: int| 0 <= k < segs.len() ==> rule_output(k, s, #[trigger] segs[k])
    };
    lemma_catalog_adjacent();
    assert forall|k: int| 0 <= k < sa.len() implies findings_view(#[trigger] sa[k]) == findings_view(sb[k]) by {
        assert(rule_output(k, s, sa[k]));
        assert(rule_output(k, s, sb[k]));
        lemma_rule_output_unique(k, s, sa[k], sb[k]);
    }
    lemma_flatten_views(sa, sb);
}

/// Each rule's findings are complete.
proof fn lemma_rule_output_complete(k: int, s: Snapshot, out: Seq<Finding>)
    requires
        0 <= k < 21,
        rule_output(k, s, out),
    ensures
        forall|i: int| 0 <= i < out.len() ==> finding_complete(#[trigger] out[i]),
{
    if k == 0 {
        lemma_cfg001_complete(s, out);
    } else if k == 1 {
        lemma_cfg002_complete(s, out);
    } else if k == 2 {
        lemma_cfg003_complete(s, out);
    } else if k == 3 {
        lemma_cfg004_complete(s, out);
    } else if k == 4 {
        lemma_dbus001_complete(s, out);
    } else if k == 5 {
        lemma_dbus002_complete(s, out);
    } else if k == 6 {
        lemma_env001_complete(s, out);
    } else if k == 7 {
        lemma_env002_complete(s, out);
    } else if k == 8 {
        lemma_env003_complete(s, out);
    } else if k == 9 {
        lemma_env004_complete(s, out);
    } else if k == 10 {
        lemma_pw001_complete(s, out);
    } else if k == 11 {
        lemma_pw002_complete(s, out);
    } else if k == 12 {
        lemma_pw003_complete(s, out);
    } else if k == 13 {
        lemma_sc001_complete(s, out);
    } else if k == 14 {
        lemma_sc002_complete(s, out);
    } else if k == 15 {
        lemma_xdp001_complete(s, out);
    } else if k == 16 {
        lemma_xdp002_complete(s, out);
    } else if k == 17 {
        lemma_xdp003_complete(s, out);
    } else if k == 18 {
        lemma_xdp004_complete(s, out);
    } else if k == 19 {
        lemma_xdp005_complete(s, out);
    } else {
        lemma_xdp006_complete(s, out);
    }
}

proof fn lemma_flatten_complete(x: Seq<Seq<Finding>>)
    requires
        forall|k: int, i: int| 0 <= k < x.len() && 0 <= i < x[k].len() ==> finding_complete(#[trigger] x[k][i]),
    ensures
        forall|i: int| 0 <= i < x.flatten().len() ==> finding_complete(#[trigger] x.flatten()[i]),
    decreases x.len(),
{
    if x.len() > 0 {
        let xi = x.drop_last();
        assert forall|k: int, i: int| 0 <= k < xi.len() && 0 <= i < xi[k].len() implies finding_complete(#[trigger] xi[k][i]) by {
            assert(xi[k] == x[k]);
        }
        lemma_flatten_complete(xi);
        xi.lemma_flatten_push(x.last());
        assert(xi.push(x.last()) =~= x);
        let f = xi.flatten() + x.last();
        assert forall|i: int| 0 <= i < f.len() implies finding_complete(#[trigger] f[i]) by {
            if i >= xi.flatten().len() {
                assert(f[i] == x[x.len() - 1][i - xi.flatten().len()]);
            }
        }
    } else {
        assert(x.flatten() =~= Seq::<Finding>::empty());
    }
}

/// Every finding an evaluation yields is complete: it carries an ID, a
/// title, a summary, evidence, a source component and at least one
/// recommendation step, none of them empty, a non-empty impact where it has
/// one, and an explanation unless it is a portal-configuration finding.
pub proof fn law_findings_are_complete(s: Snapshot, r: Seq<Finding>)
    requires
        evaluation(s, r),
    ensures
        forall|i: int| 0 <= i < r.len() ==> finding_complete(#[trigger] r[i]),
{
    let segs = choose|segs: Seq<Seq<Finding>>| {
        &&& segs.len() == catalog().len()
        &&& r == segs.flatten()
        &&& forall|k: int| 0 <= k < segs.len() ==> rule_output(k, s, #[trigger] segs[k])
    };
    lemma_catalog_adjacent();
    assert forall|k: int, i: int| 0 <= k < segs.len() && 0 <= i < segs[k].len() implies finding_complete(#[trigger] segs[k][i]) by {
        assert(rule_output(k, s, segs[k]));
        lemma_rule_output_complete(k, s, segs[k]);
    }
    lemma_flatten_complete(segs);
}

/// Evaluate every registered rule and return the findings ordered by rule
/// ID: the rules' outputs concatenated in catalog order.
#[verifier::spinoff_prover]
#[verifier::rlimit(80)]
pub fn evaluate(snapshot: &Snapshot) -> (r: Vec<Finding>)
    ensures
        evaluation(*snapshot, r@),
        sorted_by_id(r@),
        forall|i: int| 0 <= i < r@.len() ==> catalog().contains((#[trigger] r@[i]).id@),
{
    broadcast use vstd::seq::Seq::lemma_flatten_push;
    proof {
        lemma_catalog_adjacent();
    }
    let ghost cat = catalog();
    assert forall|k: int| 0 <= k < 21 implies cat.contains(#[trigger] cat[k]) by {}
    let mut out: Vec<Finding> = Vec::new();
    let ghost mut segs: Seq<Seq<Finding>> = Seq::empty();

    let a = Cfg001.evaluate(snapshot);
    proof { lemma_output_ids(0, *snapshot, a@); segs = segs.push(a@); }
    push_segment(&mut out, a, Ghost(cat[0]), Ghost(cat[0]));
    assert(out@ =~= segs.flatten());
    let a = Cfg002.evaluate(snapshot);
    proof { lemma_output_ids(1, *snapshot, a@); segs = segs.push(a@); }
    push_segment(&mut out, a, Ghost(cat[0]), Ghost(cat[1]));
    assert(out@ =~= segs.flatten());
    let a = Cfg003.evaluate(snapshot);
    proof { lemma_output_ids(2, *snapshot, a@); segs = segs.push(a@); }
    push_segment(&mut out, a, Ghost(cat[1]), Ghost(cat[2]));
    assert(out@ =~= segs.flatten());
    let a = Cfg004.evaluate(snapshot);
    proof { lemma_output_ids(3, *snapshot, a@); segs = segs.push(a@); }
    push_segment(&mut out, a, Ghost(cat[2]), Ghost(cat[3]));
    assert(out@ =~= segs.flatten());
    let a = Dbus001.evaluate(snapshot);
    proof { lemma_output_ids(4, *snapshot, a@); segs = segs.push(a@); }
    push_segment(&mut out, a, Ghost(cat[3]), Ghost(cat[4]));
    assert(out@ =~= segs.flatten());
    let a = Dbus002.evaluate(snapshot);
    proof { lemma_output_ids(5, *snapshot, a@); segs = segs.push(a@); }
    push_segment(&mut out, a, Ghost(cat[4]), Ghost(cat[5]));
    assert(out@ =~= segs.flatten());
    let a = Env001.evaluate(snapshot);
    proof { lemma_output_ids(6, *snapshot, a@); segs = segs.push(a@); }
    push_segment(&mut out, a, Ghost(cat[5]), Ghost(cat[6]));
    assert(out@ =~= segs.flatten());
    let a = Env002.evaluate(snapshot);
    proof { lemma_output_ids(7, *snapshot, a@); segs = segs.push(a@); }
    push_segment(&mut out, a, Ghost(cat[6]), Ghost(cat[7]));
    assert(out@ =~= segs.flatten());
    let a = Env003.evaluate(snapshot);
    proof { lemma_output_ids(8, *snapshot, a@); segs = segs.push(a@); }
    push_segment(&mut out, a, Ghost(cat[7]), Ghost(cat[8]));
    assert(out@ =~= segs.flatten());
    let a = Env004.evaluate(snapshot);
    proof { lemma_output_ids(9, *snapshot, a@); segs = segs.push(a@); }
    push_segment(&mut out, a, Ghost(cat[8]), Ghost(cat[9]));
    assert(out@ =~= segs.flatten());
    let a = Pw001.evaluate(snapshot);
    proof { lemma_output_ids(10, *snapshot, a@); segs = segs.push(a@); }
    push_segment(&mut out, a, Ghost(cat[9]), Ghost(cat[10]));
    assert(out@ =~= segs.flatten());
    let a = Pw002.evaluate(snapshot);
    proof { lemma_output_ids(11, *snapshot, a@); segs = segs.push(a@); }
    push_segment(&mut out, a, Ghost(cat[10]), Ghost(cat[11]));
    assert(out@ =~= segs.flatten());
    let a = Pw003.evaluate(snapshot);
    proof { lemma_output_ids(12, *snapshot, a@); segs = segs.push(a@); }
    push_segment(&mut out, a, Ghost(cat[11]), Ghost(cat[12]));
    assert(out@ =~= segs.flatten());
    let a = Sc001.evaluate(snapshot);
    proof { lemma_output_ids(13, *snapshot, a@); segs = segs.push(a@); }
    push_segment(&mut out, a, Ghost(cat[12]), Ghost(cat[13]));
    assert(out@ =~= segs.flatten());
    let a = Sc002.evaluate(snapshot);
    proof { lemma_output_ids(14, *snapshot, a@); segs = segs.push(a@); }
    push_segment(&mut out, a, Ghost(cat[13]), Ghost(cat[14]));
    assert(out@ =~= segs.flatten());
    let a = Xdp001.evaluate(snapshot);
    proof { lemma_output_ids(15, *snapshot, a@); segs = segs.push(a@); }
    push_segment(&mut out, a, Ghost(cat[14]), Ghost(cat[15]));
    assert(out@ =~= segs.flatten());
    let a = Xdp002.evaluate(snapshot);
    proof { lemma_output_ids(16, *snapshot, a@); segs = segs.push(a@); }
    push_segment(&mut out, a, Ghost(cat[15]), Ghost(cat[16]));
    assert(out@ =~= segs.flatten());
    let a = Xdp003.evaluate(snapshot);
    proof { lemma_output_ids(17, *snapshot, a@); segs = segs.push(a@); }
    push_segment(&mut out, a, Ghost(cat[16]), Ghost(cat[17]));
    assert(out@ =~= segs.flatten());
    let a = Xdp004.evaluate(snapshot);
    proof { lemma_output_ids(18, *snapshot, a@); segs = segs.push(a@); }
    push_segment(&mut out, a, Ghost(cat[17]), Ghost(cat[18]));
    assert(out@ =~= segs.flatten());
    let a = Xdp005.evaluate(snapshot);
    proof { lemma_output_ids(19, *snapshot, a@); segs = segs.push(a@); }
    push_segment(&mut out, a, Ghost(cat[18]), Ghost(cat[19]));
    assert(out@ =~= segs.flatten());
    let a = Xdp006.evaluate(snapshot);
    proof { lemma_output_ids(20, *snapshot, a@); segs = segs.push(a@); }
    push_segment(&mut out, a, Ghost(cat[19]), Ghost(cat[20]));
    assert(out@ =~= segs.flatten());
    proof {
        assert(segs.len() == 21);
    }
    out
}

} // verus!
