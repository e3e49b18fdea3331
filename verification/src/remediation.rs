//! Dry-run remediation previews: what a fix would change, never applied.
use vstd::prelude::*;
use crate::collectors::environment::{comparison_key_list, comparison_keys};
use crate::model::environment::{EnvVars, EnvironmentRelation, EnvironmentValue, SessionInfo};
use crate::model::finding::Finding;
use crate::model::snapshot::{Snapshot, SNAPSHOT_SCHEMA_VERSION};
use crate::model::status::CollectorState;
use crate::text::{
    append, clone_string, concat3, contains_string, decimal, eq_str, lemma_lt_irreflexive, lemma_lt_total,
    lemma_lt_transitive, opt_string_eq, opt_view, push_decimal, seq_lt, sorted_strict, str_lt, views,
};

verus! {

/// Version of the standalone remediation-preview contract.
pub const REMEDIATION_PREVIEW_SCHEMA_VERSION: u32 = 1;

/// Stable remediation identifier for the first bounded preview.
pub const ENV004_REMEDIATION_ID: &'static str = "ENV004.activation_environment_import";

/// A deterministic decision for one requested remediation target.
#[derive(Debug, Clone, PartialEq, Eq)]
pub struct RemediationPreview {
    /// Version of this standalone preview document, separate from the
    /// passive diagnostic snapshot schema.
    pub schema_version: u32,
    /// Finding requested by the caller.
    pub finding_id: String,
    /// Whether the current evidence supports a proposal.
    pub applicability: RemediationApplicability,
    /// Absent whenever the target is not applicable.
    pub proposal: Option<RemediationProposal>,
}

/// Machine-readable applicability result.
#[derive(Debug, Clone, Copy, PartialEq, Eq, Structural)]
pub enum RemediationApplicability {
    Applicable,
    NotApplicable { reason: NotApplicableReason },
}

/// Fail-closed reasons for omitting a proposal.
#[derive(Debug, Clone, Copy, PartialEq, Eq, Structural)]
pub enum NotApplicableReason {
    FindingNotPresent,
    SnapshotSchemaMismatch,
    SnapshotTimestampMissing,
    SnapshotUnavailable,
    ActivationComparisonUnavailable,
    SnapshotInconsistent,
    MissingProcessValue,
    NoActionableMismatch,
}

impl NotApplicableReason {
    pub open spec fn label_spec(self) -> Seq<char> {
        match self {
            NotApplicableReason::FindingNotPresent => "finding not present"@,
            NotApplicableReason::SnapshotSchemaMismatch => "snapshot schema is unsupported"@,
            NotApplicableReason::SnapshotTimestampMissing => "snapshot timestamp is missing"@,
            NotApplicableReason::SnapshotUnavailable => "required snapshot sections are unavailable"@,
            NotApplicableReason::ActivationComparisonUnavailable => "activation comparison is unavailable"@,
            NotApplicableReason::SnapshotInconsistent => "snapshot comparison evidence is inconsistent"@,
            NotApplicableReason::MissingProcessValue => "a required process-side value is missing"@,
            NotApplicableReason::NoActionableMismatch => "no actionable environment mismatch is present"@,
        }
    }

    pub fn as_str(self) -> (r: &'static str)
        ensures
            r@ == self.label_spec(),
    {
        match self {
            NotApplicableReason::FindingNotPresent => "finding not present",
            NotApplicableReason::SnapshotSchemaMismatch => "snapshot schema is unsupported",
            NotApplicableReason::SnapshotTimestampMissing => "snapshot timestamp is missing",
            NotApplicableReason::SnapshotUnavailable => "required snapshot sections are unavailable",
            NotApplicableReason::ActivationComparisonUnavailable => "activation comparison is unavailable",
            NotApplicableReason::SnapshotInconsistent => "snapshot comparison evidence is inconsistent",
            NotApplicableReason::MissingProcessValue => "a required process-side value is missing",
            NotApplicableReason::NoActionableMismatch => "no actionable environment mismatch is present",
        }
    }
}

/// The only action this preview represents. It describes intent only; it
/// never invokes `systemctl import-environment` or writes a file.
#[derive(Debug, Clone, Copy, PartialEq, Eq, Structural)]
pub enum RemediationAction {
    ImportActivationEnvironment,
}

/// Explicit destination of the previewed values.
#[derive(Debug, Clone, Copy, PartialEq, Eq, Structural)]
pub enum RemediationTarget {
    SystemdUserActivationEnvironment,
}

/// One allowlisted process-side value that a future apply step would
/// import.
#[derive(Debug, Clone, PartialEq, Eq)]
pub struct EnvironmentUpdate {
    pub key: String,
    pub value: String,
}

/// Typed, dry-run-only remediation proposal.
#[derive(Debug, Clone, PartialEq, Eq)]
pub struct RemediationProposal {
    pub remediation_id: String,
    pub action: RemediationAction,
    pub target: RemediationTarget,
    pub dry_run: bool,
    pub environment_updates: Vec<EnvironmentUpdate>,
    pub files_modified: Vec<String>,
    pub service_restarts: Vec<String>,
    pub package_changes: Vec<String>,
    pub configuration_changes: Vec<String>,
    pub apply: ApplyStatus,
}

/// Apply boundary: previews only.
#[derive(Debug, Clone, Copy, PartialEq, Eq, Structural)]
pub enum ApplyStatus {
    NotImplemented,
}

/// The relation two observed values must have been recorded with.
pub open spec fn expected_relation_spec(process: Option<Seq<char>>, activation: Option<Seq<char>>) -> Option<EnvironmentRelation> {
    match (process, activation) {
        (Some(p), Some(a)) => if p == a { Some(EnvironmentRelation::Equal) } else { Some(EnvironmentRelation::Different) },
        (Some(_), None) => Some(EnvironmentRelation::MissingActivation),
        (None, Some(_)) => Some(EnvironmentRelation::MissingProcess),
        (None, None) => None,
    }
}

fn expected_relation(process_value: Option<&String>, activation_value: Option<&String>) -> (r: Option<EnvironmentRelation>)
    ensures
        r == expected_relation_spec(
            match process_value { Some(s) => Some(s@), None => None },
            match activation_value { Some(s) => Some(s@), None => None },
        ),
{
    match (process_value, activation_value) {
        (Some(process), Some(activation)) => {
            if eq_str(process.as_str(), activation.as_str()) {
                Some(EnvironmentRelation::Equal)
            } else {
                Some(EnvironmentRelation::Different)
            }
        },
        (Some(_), None) => Some(EnvironmentRelation::MissingActivation),
        (None, Some(_)) => Some(EnvironmentRelation::MissingProcess),
        (None, None) => None,
    }
}

/// The session section was read from the same process environment.
pub open spec fn session_matches_spec(session: SessionInfo, process: EnvVars) -> bool {
    &&& opt_view(session.current_desktop) == process.get_spec("XDG_CURRENT_DESKTOP"@)
    &&& opt_view(session.session_desktop) == process.get_spec("XDG_SESSION_DESKTOP"@)
    &&& opt_view(session.session_type_raw) == process.get_spec("XDG_SESSION_TYPE"@)
    &&& opt_view(session.wayland_display) == process.get_spec("WAYLAND_DISPLAY"@)
    &&& opt_view(session.display) == process.get_spec("DISPLAY"@)
}

fn matches_process(process: &EnvVars, key: &str, session_value: &Option<String>) -> (r: bool)
    ensures
        r == (opt_view(*session_value) == process.get_spec(key@)),
{
    let p = process.get_cloned(key);
    opt_string_eq(session_value, &p)
}

fn session_matches_process(session: &SessionInfo, process: &EnvVars) -> (r: bool)
    ensures
        r == session_matches_spec(*session, *process),
{
    matches_process(process, "XDG_CURRENT_DESKTOP", &session.current_desktop)
        && matches_process(process, "XDG_SESSION_DESKTOP", &session.session_desktop)
        && matches_process(process, "XDG_SESSION_TYPE", &session.session_type_raw)
        && matches_process(process, "WAYLAND_DISPLAY", &session.wayland_display)
        && matches_process(process, "DISPLAY", &session.display)
}

pub open spec fn entry_keys(entries: Seq<EnvironmentValue>) -> Seq<Seq<char>> {
    entries.map_values(|e: EnvironmentValue| e.key@)
}

/// Whether an earlier entry already carries `key`.
pub open spec fn key_seen(entries: Seq<EnvironmentValue>, key: Seq<char>) -> bool {
    entry_keys(entries).contains(key)
}

/// The updates the comparison entries call for, in entry order, or the
/// reason the first offending entry gives for refusing.
pub open spec fn scan_entries(entries: Seq<EnvironmentValue>, process: EnvVars) -> Result<Seq<(Seq<char>, Seq<char>)>, NotApplicableReason>
    decreases entries.len(),
{
    if entries.len() == 0 {
        Ok(Seq::empty())
    } else {
        match scan_entries(entries.drop_last(), process) {
            Err(reason) => Err(reason),
            Ok(updates) => {
                let e = entries.last();
                if !comparison_keys().contains(e.key@) || key_seen(entries.drop_last(), e.key@) {
                    Err(NotApplicableReason::SnapshotInconsistent)
                } else if process.get_spec(e.key@) != opt_view(e.process_value)
                    || expected_relation_spec(opt_view(e.process_value), opt_view(e.activation_value)) != Some(e.relation) {
                    Err(NotApplicableReason::SnapshotInconsistent)
                } else {
                    match e.relation {
                        EnvironmentRelation::Equal => Ok(updates),
                        EnvironmentRelation::Different | EnvironmentRelation::MissingActivation => match e.process_value {
                            Some(v) => if v@.len() > 0 {
                                Ok(updates.push((e.key@, v@)))
                            } else {
                                Err(NotApplicableReason::MissingProcessValue)
                            },
                            None => Err(NotApplicableReason::MissingProcessValue),
                        },
                        _ => Err(NotApplicableReason::MissingProcessValue),
                    }
                }
            },
        }
    }
}

proof fn lemma_scan_err_extends(entries: Seq<EnvironmentValue>, process: EnvVars, j: int)
    requires
        0 <= j <= entries.len(),
        scan_entries(entries.take(j), process) is Err,
    ensures
        scan_entries(entries, process) == scan_entries(entries.take(j), process),
    decreases entries.len() - j,
{
    if j < entries.len() {
        assert(entries.take(j + 1).drop_last() =~= entries.take(j));
        lemma_scan_err_extends(entries, process, j + 1);
    } else {
        assert(entries.take(j) =~= entries);
    }
}

/// The decision `preview_env004` makes: the updates to propose, or why
/// there is no proposal.
pub open spec fn env004_decision(s: Snapshot, findings: Seq<Finding>) -> Result<Seq<(Seq<char>, Seq<char>)>, NotApplicableReason> {
    if !(exists|i: int| 0 <= i < findings.len() && (#[trigger] findings[i]).id@ == "ENV004"@) {
        Err(NotApplicableReason::FindingNotPresent)
    } else if s.schema_version != SNAPSHOT_SCHEMA_VERSION {
        Err(NotApplicableReason::SnapshotSchemaMismatch)
    } else if s.collected_at == 0 {
        Err(NotApplicableReason::SnapshotTimestampMissing)
    } else if s.session.status != CollectorState::Available || s.environment.status != CollectorState::Available {
        Err(NotApplicableReason::SnapshotUnavailable)
    } else {
        match (s.session.value, s.environment.value) {
            (Some(session), Some(environment)) => {
                if !environment.activation_comparison.performed {
                    Err(NotApplicableReason::ActivationComparisonUnavailable)
                } else if !session_matches_spec(session, environment.process) {
                    Err(NotApplicableReason::SnapshotInconsistent)
                } else {
                    match scan_entries(environment.activation_comparison.entries@, environment.process) {
                        Err(reason) => Err(reason),
                        Ok(updates) => if updates.len() == 0 {
                            Err(NotApplicableReason::NoActionableMismatch)
                        } else {
                            Ok(updates)
                        },
                    }
                }
            },
            _ => Err(NotApplicableReason::SnapshotUnavailable),
        }
    }
}

/// An update as a (key, value) pair of character sequences.
pub open spec fn update_pairs(us: Seq<EnvironmentUpdate>) -> Seq<(Seq<char>, Seq<char>)> {
    us.map_values(|u: EnvironmentUpdate| (u.key@, u.value@))
}

pub open spec fn update_keys(us: Seq<EnvironmentUpdate>) -> Seq<Seq<char>> {
    us.map_values(|u: EnvironmentUpdate| u.key@)
}

/// The proposal's updates are exactly `pairs`, ordered by key.
pub open spec fn updates_sorted_from(us: Seq<EnvironmentUpdate>, pairs: Seq<(Seq<char>, Seq<char>)>) -> bool {
    &&& sorted_strict(update_keys(us))
    &&& us.len() == pairs.len()
    &&& forall|p: (Seq<char>, Seq<char>)| #[trigger] update_pairs(us).contains(p) <==> pairs.contains(p)
}

fn not_applicable(reason: NotApplicableReason) -> (r: RemediationPreview)
    ensures
        r.schema_version == REMEDIATION_PREVIEW_SCHEMA_VERSION,
        r.finding_id@ == "ENV004"@,
        r.applicability == (RemediationApplicability::NotApplicable { reason }),
        r.proposal is None,
{
    RemediationPreview {
        schema_version: REMEDIATION_PREVIEW_SCHEMA_VERSION,
        finding_id: "ENV004".to_owned(),
        applicability: RemediationApplicability::NotApplicable { reason },
        proposal: None,
    }
}

/// Insert an update with a new key, keeping the keys strictly increasing.
fn insert_update(v: &mut Vec<EnvironmentUpdate>, u: EnvironmentUpdate)
    requires
        sorted_strict(update_keys(old(v)@)),
        !update_keys(old(v)@).contains(u.key@),
    ensures
        sorted_strict(update_keys(final(v)@)),
        final(v)@.len() == old(v)@.len() + 1,
        forall|p: (Seq<char>, Seq<char>)| #[trigger] update_pairs(final(v)@).contains(p)
            <==> (update_pairs(old(v)@).contains(p) || p == (u.key@, u.value@)),
        forall|t: Seq<char>| #[trigger] update_keys(final(v)@).contains(t)
            <==> (update_keys(old(v)@).contains(t) || t == u.key@),
{
    let ghost before = v@;
    let mut p: usize = 0;
    while p < v.len() && str_lt(v[p].key.as_str(), u.key.as_str())
        invariant
            before == v@,
            sorted_strict(update_keys(before)),
            p <= v@.len(),
            forall|k: int| 0 <= k < p ==> seq_lt((#[trigger] before[k]).key@, u.key@),
        decreases v@.len() - p,
    {
        p = p + 1;
    }
    assert(p < before.len() ==> seq_lt(u.key@, before[p as int].key@)) by {
        if p < before.len() {
            assert(update_keys(before)[p as int] == before[p as int].key@);
            assert(before[p as int].key@ != u.key@);
            lemma_lt_total(u.key@, before[p as int].key@);
        }
    }
    let ghost item = u;
    v.insert(p, u);
    let ghost after = v@;
    assert(after =~= before.insert(p as int, item));
    assert forall|i: int, j: int| 0 <= i < j < after.len() implies seq_lt(#[trigger] update_keys(after)[i], #[trigger] update_keys(after)[j]) by {
        assert(update_keys(after)[i] == after[i].key@);
        assert(update_keys(after)[j] == after[j].key@);
        if j < p {
            assert(update_keys(before)[i] == before[i].key@);
            assert(update_keys(before)[j] == before[j].key@);
        } else if j == p {
        } else if i < p {
            assert(after[j] == before[j - 1]);
            assert(update_keys(before)[i] == before[i].key@);
            assert(update_keys(before)[j - 1] == before[j - 1].key@);
            assert(update_keys(before)[p as int] == before[p as int].key@);
            if j - 1 > p {
                lemma_lt_transitive(item.key@, before[p as int].key@, before[j - 1].key@);
            }
            lemma_lt_transitive(before[i].key@, item.key@, before[j - 1].key@);
        } else if i == p {
            assert(after[j] == before[j - 1]);
            assert(update_keys(before)[j - 1] == before[j - 1].key@);
            assert(update_keys(before)[p as int] == before[p as int].key@);
            if j - 1 > p {
                lemma_lt_transitive(item.key@, before[p as int].key@, before[j - 1].key@);
            }
        } else {
            assert(after[i] == before[i - 1]);
            assert(after[j] == before[j - 1]);
            assert(update_keys(before)[i - 1] == before[i - 1].key@);
            assert(update_keys(before)[j - 1] == before[j - 1].key@);
        }
    }
    assert forall|q: (Seq<char>, Seq<char>)| #[trigger] update_pairs(after).contains(q)
        <==> (update_pairs(before).contains(q) || q == (item.key@, item.value@)) by {
        if update_pairs(after).contains(q) {
            let k = choose|k: int| 0 <= k < update_pairs(after).len() && update_pairs(after)[k] == q;
            if k < p {
                assert(update_pairs(before)[k] == q);
            } else if k > p {
                assert(update_pairs(before)[k - 1] == q);
            }
        }
        if update_pairs(before).contains(q) {
            let k = choose|k: int| 0 <= k < update_pairs(before).len() && update_pairs(before)[k] == q;
            if k < p {
                assert(update_pairs(after)[k] == q);
            } else {
                assert(update_pairs(after)[k + 1] == q);
            }
        }
        if q == (item.key@, item.value@) {
            assert(update_pairs(after)[p as int] == q);
        }
    }
    assert forall|t: Seq<char>| #[trigger] update_keys(after).contains(t)
        <==> (update_keys(before).contains(t) || t == item.key@) by {
        if update_keys(after).contains(t) {
            let k = choose|k: int| 0 <= k < update_keys(after).len() && update_keys(after)[k] == t;
            if k < p {
                assert(update_keys(before)[k] == t);
            } else if k > p {
                assert(update_keys(before)[k - 1] == t);
            }
        }
        if update_keys(before).contains(t) {
            let k = choose|k: int| 0 <= k < update_keys(before).len() && update_keys(before)[k] == t;
            if k < p {
                assert(update_keys(after)[k] == t);
            } else {
                assert(update_keys(after)[k + 1] == t);
            }
        }
        if t == item.key@ {
            assert(update_keys(after)[p as int] == t);
        }
    }
}

fn has_finding(findings: &[Finding], id: &str) -> (r: bool)
    ensures
        r == exists|i: int| 0 <= i < findings@.len() && (#[trigger] findings@[i]).id@ == id@,
{
    let mut i: usize = 0;
    while i < findings.len()
        invariant
            i <= findings@.len(),
            forall|k: int| 0 <= k < i ==> (#[trigger] findings@[k]).id@ != id@,
        decreases findings@.len() - i,
    {
        if eq_str(findings[i].id.as_str(), id) {
            return true;
        }
        i = i + 1;
    }
    false
}

/// Build the only supported remediation preview from the evaluated
/// findings and the snapshot that produced them.
#[verifier::loop_isolation(false)]
pub fn preview_env004(snapshot: &Snapshot, findings: &[Finding]) -> (r: RemediationPreview)
    ensures
        r.schema_version == REMEDIATION_PREVIEW_SCHEMA_VERSION,
        r.finding_id@ == "ENV004"@,
        match env004_decision(*snapshot, findings@) {
            Err(reason) => r.applicability == (RemediationApplicability::NotApplicable { reason }) && r.proposal is None,
            Ok(pairs) => {
                &&& r.applicability == RemediationApplicability::Applicable
                &&& r.proposal matches Some(p)
                &&& p.remediation_id@ == ENV004_REMEDIATION_ID@
                &&& p.action == RemediationAction::ImportActivationEnvironment
                &&& p.target == RemediationTarget::SystemdUserActivationEnvironment
                &&& p.dry_run
                &&& updates_sorted_from(p.environment_updates@, pairs)
                &&& p.files_modified@.len() == 0
                &&& p.service_restarts@.len() == 0
                &&& p.package_changes@.len() == 0
                &&& p.configuration_changes@.len() == 0
                &&& p.apply == ApplyStatus::NotImplemented
            },
        },
{
    if !has_finding(findings, "ENV004") {
        return not_applicable(NotApplicableReason::FindingNotPresent);
    }
    if snapshot.schema_version != SNAPSHOT_SCHEMA_VERSION {
        return not_applicable(NotApplicableReason::SnapshotSchemaMismatch);
    }
    if snapshot.collected_at == 0 {
        return not_applicable(NotApplicableReason::SnapshotTimestampMissing);
    }
    if snapshot.session.status != CollectorState::Available || snapshot.environment.status != CollectorState::Available {
        return not_applicable(NotApplicableReason::SnapshotUnavailable);
    }
    let (session, environment) = match (&snapshot.session.value, &snapshot.environment.value) {
        (Some(s), Some(e)) => (s, e),
        _ => return not_applicable(NotApplicableReason::SnapshotUnavailable),
    };
    if !environment.activation_comparison.performed {
        return not_applicable(NotApplicableReason::ActivationComparisonUnavailable);
    }
    if !session_matches_process(session, &environment.process) {
        return not_applicable(NotApplicableReason::SnapshotInconsistent);
    }
    let entries = &environment.activation_comparison.entries;
    let process = &environment.process;
    let keys = comparison_key_list();
    let mut seen_keys: Vec<String> = Vec::new();
    let mut updates: Vec<EnvironmentUpdate> = Vec::new();
    let ghost mut pairs: Seq<(Seq<char>, Seq<char>)> = Seq::empty();
    let mut i: usize = 0;
    while i < entries.len()
        invariant
            i <= entries@.len(),
            keys@.map_values(|s: &'static str| s@) == comparison_keys(),
            scan_entries(entries@.take(i as int), *process) == Ok::<Seq<(Seq<char>, Seq<char>)>, NotApplicableReason>(pairs),
            views(seen_keys@) == entry_keys(entries@.take(i as int)),
            sorted_strict(update_keys(updates@)),
            updates@.len() == pairs.len(),
            forall|p: (Seq<char>, Seq<char>)| #[trigger] update_pairs(updates@).contains(p) <==> pairs.contains(p),
            forall|t: Seq<char>| #[trigger] update_keys(updates@).contains(t) ==> entry_keys(entries@.take(i as int)).contains(t),
        decreases entries@.len() - i,
    {
        let entry = &entries[i];
        let ghost prefix = entries@.take(i as int);
        assert(entries@.take(i + 1).drop_last() =~= prefix);
        assert(entries@.take(i + 1).last() == *entry);
        let mut known = false;
        let mut k: usize = 0;
        while k < keys.len()
            invariant
                k <= keys@.len(),
                keys@.map_values(|s: &'static str| s@) == comparison_keys(),
                known == exists|j: int| 0 <= j < k && (#[trigger] comparison_keys()[j]) == entry.key@,
            decreases keys@.len() - k,
        {
            assert(keys@.map_values(|s: &'static str| s@)[k as int] == keys@[k as int]@);
            if eq_str(keys[k], entry.key.as_str()) {
                known = true;
            }
            k = k + 1;
        }
        assert(known == comparison_keys().contains(entry.key@));
        if !known || contains_string(&seen_keys, entry.key.as_str()) {
            proof {
                lemma_scan_err_extends(entries@, *process, i + 1);
            }
            return not_applicable(NotApplicableReason::SnapshotInconsistent);
        }
        let process_value = process.get_cloned(entry.key.as_str());
        let relation_ok = match expected_relation(entry.process_value.as_ref(), entry.activation_value.as_ref()) {
            Some(rel) => rel == entry.relation,
            None => false,
        };
        if !opt_string_eq(&process_value, &entry.process_value) || !relation_ok {
            proof {
                lemma_scan_err_extends(entries@, *process, i + 1);
            }
            return not_applicable(NotApplicableReason::SnapshotInconsistent);
        }
        match entry.relation {
            EnvironmentRelation::Equal => {},
            EnvironmentRelation::Different | EnvironmentRelation::MissingActivation => {
                let value = match &entry.process_value {
                    Some(v) => v,
                    None => {
                        proof {
                            lemma_scan_err_extends(entries@, *process, i + 1);
                        }
                        return not_applicable(NotApplicableReason::MissingProcessValue);
                    },
                };
                if value.as_str().is_empty() {
                    proof {
                        lemma_scan_err_extends(entries@, *process, i + 1);
                    }
                    return not_applicable(NotApplicableReason::MissingProcessValue);
                }
                assert(!update_keys(updates@).contains(entry.key@));
                let ghost pairs_before = pairs;
                let ghost old_pairs_view = update_pairs(updates@);
                assert(forall|p: (Seq<char>, Seq<char>)| #[trigger] old_pairs_view.contains(p) <==> pairs_before.contains(p));
                insert_update(&mut updates, EnvironmentUpdate { key: clone_string(&entry.key), value: clone_string(value) });
                proof {
                    pairs = pairs.push((entry.key@, value@));
                    assert(pairs.drop_last() =~= pairs_before);
                    assert forall|p: (Seq<char>, Seq<char>)| #[trigger] update_pairs(updates@).contains(p) <==> pairs.contains(p) by {
                        if pairs.contains(p) {
                            let j = choose|j: int| 0 <= j < pairs.len() && pairs[j] == p;
                            if j < pairs.len() - 1 {
                                assert(pairs_before[j] == p);
                                assert(pairs_before.contains(p));
                                assert(old_pairs_view.contains(p));
                            }
                        }
                        if old_pairs_view.contains(p) {
                            assert(pairs_before.contains(p));
                            let j = choose|j: int| 0 <= j < pairs_before.len() && pairs_before[j] == p;
                            assert(pairs[j] == p);
                        }
                        if p == (entry.key@, value@) {
                            assert(pairs[pairs.len() - 1] == p);
                        }
                    }
                }
            },
            _ => {
                proof {
                    lemma_scan_err_extends(entries@, *process, i + 1);
                }
                return not_applicable(NotApplicableReason::MissingProcessValue);
            },
        }
        let ghost seen_before = views(seen_keys@);
        let ghost updates_now = update_keys(updates@);
        seen_keys.push(clone_string(&entry.key));
        proof {
            assert(entry_keys(entries@.take(i + 1)) =~= entry_keys(prefix).push(entry.key@));
            assert(views(seen_keys@) =~= seen_before.push(entry.key@));
            assert forall|t: Seq<char>| #[trigger] update_keys(updates@).contains(t) implies entry_keys(entries@.take(i + 1)).contains(t) by {
                if entry_keys(prefix).contains(t) {
                    let m = choose|m: int| 0 <= m < entry_keys(prefix).len() && entry_keys(prefix)[m] == t;
                    assert(entry_keys(entries@.take(i + 1))[m] == t);
                } else {
                    assert(entry_keys(entries@.take(i + 1))[i as int] == entry.key@);
                }
            }
        }
        i = i + 1;
    }
    assert(entries@.take(i as int) =~= entries@);
    if updates.len() == 0 {
        return not_applicable(NotApplicableReason::NoActionableMismatch);
    }
    RemediationPreview {
        schema_version: REMEDIATION_PREVIEW_SCHEMA_VERSION,
        finding_id: "ENV004".to_owned(),
        applicability: RemediationApplicability::Applicable,
        proposal: Some(RemediationProposal {
            remediation_id: ENV004_REMEDIATION_ID.to_owned(),
            action: RemediationAction::ImportActivationEnvironment,
            target: RemediationTarget::SystemdUserActivationEnvironment,
            dry_run: true,
            environment_updates: updates,
            files_modified: Vec::new(),
            service_restarts: Vec::new(),
            package_changes: Vec::new(),
            configuration_changes: Vec::new(),
            apply: ApplyStatus::NotImplemented,
        }),
    }
}

/// One `  KEY=value` line per update.
pub open spec fn update_lines(us: Seq<EnvironmentUpdate>) -> Seq<char>
    decreases us.len(),
{
    if us.len() == 0 {
        Seq::empty()
    } else {
        update_lines(us.drop_last()) + "  "@ + us.last().key@ + "="@ + us.last().value@ + "\n"@
    }
}

/// The terminal rendering of a preview.
pub open spec fn preview_text(p: RemediationPreview) -> Seq<char> {
    "PortalDoctor remediation preview v"@ + decimal(p.schema_version as nat) + "\n"@ + "Finding: "@ + p.finding_id@ + "\n"@
        + match p.applicability {
        RemediationApplicability::Applicable => "Applicability: applicable\n"@ + "Mode: dry-run\n"@
            + "Action: import process-side values into the systemd user activation environment\n"@ + "Would import:\n"@
            + update_lines(p.proposal.unwrap().environment_updates@) + "Files modified: none\n"@ + "Service restarts: none\n"@
            + "Package changes: none\n"@ + "Configuration changes: none\n"@ + "Apply: not implemented\n"@,
        RemediationApplicability::NotApplicable { reason } => "Applicability: not applicable\n"@ + "Proposal: none ("@
            + reason.label_spec() + ")\n"@,
    }
}

/// Render the standalone preview without invoking any write-capable
/// command.
pub fn render_terminal(preview: &RemediationPreview) -> (r: String)
    requires
        preview.applicability == RemediationApplicability::Applicable ==> preview.proposal is Some,
    ensures
        r@ == preview_text(*preview),
{
    let mut output = "PortalDoctor remediation preview v".to_owned();
    push_decimal(&mut output, preview.schema_version as u64);
    append(&mut output, "\n");
    append(&mut output, "Finding: ");
    append(&mut output, preview.finding_id.as_str());
    append(&mut output, "\n");
    let ghost head = output@;
    match preview.applicability {
        RemediationApplicability::Applicable => {
            let proposal = match &preview.proposal {
                Some(p) => p,
                None => return output,
            };
            append(&mut output, "Applicability: applicable\n");
            append(&mut output, "Mode: dry-run\n");
            append(&mut output, "Action: import process-side values into the systemd user activation environment\n");
            append(&mut output, "Would import:\n");
            let us = &proposal.environment_updates;
            let ghost start = output@;
            let mut i: usize = 0;
            while i < us.len()
                invariant
                    i <= us@.len(),
                    output@ == start + update_lines(us@.take(i as int)),
                decreases us@.len() - i,
            {
                assert(us@.take(i + 1).drop_last() =~= us@.take(i as int));
                append(&mut output, "  ");
                append(&mut output, us[i].key.as_str());
                append(&mut output, "=");
                append(&mut output, us[i].value.as_str());
                append(&mut output, "\n");
                i = i + 1;
                assert(output@ =~= start + update_lines(us@.take(i as int)));
            }
            assert(us@.take(i as int) =~= us@);
            append(&mut output, "Files modified: none\n");
            append(&mut output, "Service restarts: none\n");
            append(&mut output, "Package changes: none\n");
            append(&mut output, "Configuration changes: none\n");
            append(&mut output, "Apply: not implemented\n");
        },
        RemediationApplicability::NotApplicable { reason } => {
            append(&mut output, "Applicability: not applicable\n");
            append(&mut output, "Proposal: none (");
            append(&mut output, reason.as_str());
            append(&mut output, ")\n");
        },
    }
    assert(output@ =~= preview_text(*preview));
    output
}

} // verus!
