//! The redaction of a whole report for sharing: every text of the snapshot
//! and the findings goes through [`redact_text`], process variables are
//! limited to the allowlist, and so are the rows of the activation
//! comparison.
use vstd::prelude::*;
use crate::collectors::environment::{allowlisted, is_allowlisted};
use crate::model::dbus::{DbusCheck, DbusInfo, DbusOutcome};
use crate::model::environment::{
    env_keys, EnvVars, EnvironmentComparison, EnvironmentInfo, EnvironmentValue, SearchRoots, SessionInfo, SystemInfo,
};
use crate::model::evidence::Evidence;
use crate::model::finding::Finding;
use crate::model::journal::{JournalEntry, JournalInfo};
use crate::model::pipewire::{PipeWireInfo, PipeWireLink, PipeWireNode, WirePlumberInfo};
use crate::model::portal::{PortalBackend, PortalConfigCandidate, PortalConfigInfo, PortalPreference, PortalRoute, RouteEvidence};
use crate::model::portal_frontend::{PortalFrontendInfo, VersionEvidenceSource};
use crate::model::section::{CollectionNote, Section};
use crate::model::service::{ServiceInfo, UnitStatus};
use crate::model::snapshot::Snapshot;
use crate::report::redact::{redact_text, redact_text_spec, RedactionOptions};
use crate::report::Report;
use crate::text::{seq_lt, sorted_strict};

verus! {

/// A value that can be redacted for sharing; `redacted_from` says what the
/// redaction of `src` is.
pub trait Redact: Sized {
    spec fn redacted_from(&self, src: Self, o: RedactionOptions) -> bool;

    fn redact(&self, o: &RedactionOptions) -> (r: Self)
        ensures
            r.redacted_from(*self, *o),
    ;
}

impl Redact for String {
    open spec fn redacted_from(&self, src: String, o: RedactionOptions) -> bool {
        self@ == redact_text_spec(src@, o)
    }

    fn redact(&self, o: &RedactionOptions) -> (r: String) {
        redact_text(self.as_str(), o)
    }
}

impl<T: Redact> Redact for Option<T> {
    open spec fn redacted_from(&self, src: Option<T>, o: RedactionOptions) -> bool {
        match *self {
            Some(a) => src matches Some(b) && a.redacted_from(b, o),
            None => src is None,
        }
    }

    fn redact(&self, o: &RedactionOptions) -> (r: Option<T>) {
        match self {
            Some(v) => Some(v.redact(o)),
            None => None,
        }
    }
}

impl<T: Redact> Redact for Vec<T> {
    open spec fn redacted_from(&self, src: Vec<T>, o: RedactionOptions) -> bool {
        &&& self@.len() == src@.len()
        &&& forall|i: int| 0 <= i < src@.len() ==> (#[trigger] self@[i]).redacted_from(src@[i], o)
    }

    fn redact(&self, o: &RedactionOptions) -> (r: Vec<T>) {
        let mut r: Vec<T> = Vec::new();
        let mut i: usize = 0;
        while i < self.len()
            invariant
                i <= self@.len(),
                r@.len() == i,
                forall|k: int| 0 <= k < i ==> (#[trigger] r@[k]).redacted_from(self@[k], *o),
            decreases self@.len() - i,
        {
            r.push(self[i].redact(o));
            i = i + 1;
        }
        r
    }
}

/// Evidence kinds carry no text.
impl Redact for Evidence {
    open spec fn redacted_from(&self, src: Evidence, o: RedactionOptions) -> bool {
        *self == src
    }

    fn redact(&self, o: &RedactionOptions) -> (r: Evidence) {
        *self
    }
}

impl<T: Redact> Redact for Section<T> {
    open spec fn redacted_from(&self, src: Section<T>, o: RedactionOptions) -> bool {
        &&& self.status == src.status
        &&& self.value.redacted_from(src.value, o)
        &&& self.errors.redacted_from(src.errors, o)
    }

    fn redact(&self, o: &RedactionOptions) -> (r: Section<T>) {
        Section { status: self.status, value: self.value.redact(o), errors: self.errors.redact(o) }
    }
}

/// The process variables that are shared: the allowlisted ones, in order.
pub open spec fn kept_vars(v: Seq<(String, String)>) -> Seq<(String, String)>
    decreases v.len(),
{
    if v.len() == 0 {
        Seq::empty()
    } else if allowlisted(v.last().0@) {
        kept_vars(v.drop_last()).push(v.last())
    } else {
        kept_vars(v.drop_last())
    }
}

proof fn lemma_kept_vars_allowlisted(v: Seq<(String, String)>)
    ensures
        forall|i: int| 0 <= i < kept_vars(v).len() ==> allowlisted((#[trigger] kept_vars(v)[i]).0@),
    decreases v.len(),
{
    if v.len() > 0 {
        let p = v.drop_last();
        lemma_kept_vars_allowlisted(p);
        assert forall|i: int| 0 <= i < kept_vars(v).len() implies allowlisted((#[trigger] kept_vars(v)[i]).0@) by {
            if allowlisted(v.last().0@) && i == kept_vars(p).len() {
                assert(kept_vars(v)[i] == v.last());
            } else {
                assert(kept_vars(v)[i] == kept_vars(p)[i]);
            }
        }
    }
}

/// A shared environment holds allowlisted variables only: whatever the
/// process environment was, no other name survives redaction.
pub proof fn law_only_allowlisted_variables_are_shared(src: EnvVars, r: EnvVars, o: RedactionOptions)
    requires
        r.redacted_from(src, o),
    ensures
        forall|i: int| 0 <= i < r.entries@.len() ==> allowlisted((#[trigger] r.entries@[i]).0@),
{
    lemma_kept_vars_allowlisted(src.entries@);
    assert forall|i: int| 0 <= i < r.entries@.len() implies allowlisted((#[trigger] r.entries@[i]).0@) by {
        assert(r.entries@[i].0@ == kept_vars(src.entries@)[i].0@);
    }
}

/// The kept variables come from `v` in order: each kept key is the key of
/// some entry of `v`, and strictly increasing keys stay so.
proof fn lemma_kept_vars_ordered(v: Seq<(String, String)>)
    ensures
        forall|i: int| 0 <= i < kept_vars(v).len() ==> exists|j: int| 0 <= j < v.len() && (#[trigger] kept_vars(v)[i]).0@ == v[j].0@,
        sorted_strict(env_keys(v)) ==> sorted_strict(env_keys(kept_vars(v))),
    decreases v.len(),
{
    if v.len() > 0 {
        let p = v.drop_last();
        lemma_kept_vars_ordered(p);
        let kp = kept_vars(p);
        assert forall|i: int| 0 <= i < kept_vars(v).len() implies exists|j: int| 0 <= j < v.len() && (#[trigger] kept_vars(v)[i]).0@ == v[j].0@ by {
            if allowlisted(v.last().0@) && i == kp.len() {
                assert(kept_vars(v)[i] == v.last());
                assert(v[v.len() - 1].0@ == v.last().0@);
            } else {
                assert(kept_vars(v)[i] == kp[i]);
                let j = choose|j: int| 0 <= j < p.len() && kp[i].0@ == p[j].0@;
                assert(v[j] == p[j]);
            }
        }
        if sorted_strict(env_keys(v)) {
            assert(sorted_strict(env_keys(p))) by {
                assert forall|x: int, y: int| 0 <= x < y < env_keys(p).len() implies seq_lt(#[trigger] env_keys(p)[x], #[trigger] env_keys(p)[y]) by {
                    assert(env_keys(p)[x] == env_keys(v)[x] && env_keys(p)[y] == env_keys(v)[y]);
                }
            }
            let k = kept_vars(v);
            assert forall|x: int, y: int| 0 <= x < y < env_keys(k).len() implies seq_lt(#[trigger] env_keys(k)[x], #[trigger] env_keys(k)[y]) by {
                if allowlisted(v.last().0@) && y == kp.len() {
                    assert(k[x] == kp[x]);
                    let j = choose|j: int| 0 <= j < p.len() && kp[x].0@ == p[j].0@;
                    assert(env_keys(v)[j] == p[j].0@);
                    assert(env_keys(v)[v.len() - 1] == v.last().0@);
                    assert(env_keys(k)[y] == v.last().0@);
                } else {
                    assert(k[x] == kp[x] && k[y] == kp[y]);
                    assert(env_keys(kp)[x] == kp[x].0@ && env_keys(kp)[y] == kp[y].0@);
                }
            }
        }
    }
}

/// Redaction keeps the shared variables in key order, each name once, as
/// the environment they come from.
pub proof fn law_redaction_keeps_variables_ordered(src: EnvVars, r: EnvVars, o: RedactionOptions)
    requires
        src.ordered(),
        r.redacted_from(src, o),
    ensures
        r.ordered(),
{
    lemma_kept_vars_ordered(src.entries@);
    let k = kept_vars(src.entries@);
    assert(env_keys(r.entries@) =~= env_keys(k)) by {
        assert forall|i: int| 0 <= i < k.len() implies env_keys(r.entries@)[i] == env_keys(k)[i] by {
            assert(r.entries@[i].0@ == k[i].0@);
        }
    }
}

/// Only allowlisted variables are shared; their names stay, their values
/// are redacted.
impl Redact for EnvVars {
    open spec fn redacted_from(&self, src: EnvVars, o: RedactionOptions) -> bool {
        let k = kept_vars(src.entries@);
        &&& self.entries@.len() == k.len()
        &&& forall|i: int| 0 <= i < k.len() ==> (#[trigger] self.entries@[i]).0@ == k[i].0@
            && self.entries@[i].1@ == redact_text_spec(k[i].1@, o)
    }

    fn redact(&self, o: &RedactionOptions) -> (r: EnvVars) {
        let v = &self.entries;
        let mut entries: Vec<(String, String)> = Vec::new();
        let mut i: usize = 0;
        while i < v.len()
            invariant
                i <= v@.len(),
                entries@.len() == kept_vars(v@.take(i as int)).len(),
                forall|j: int| 0 <= j < entries@.len() ==> (#[trigger] entries@[j]).0@ == kept_vars(v@.take(i as int))[j].0@
                    && entries@[j].1@ == redact_text_spec(kept_vars(v@.take(i as int))[j].1@, *o),
            decreases v@.len() - i,
        {
            assert(v@.take(i + 1).drop_last() =~= v@.take(i as int));
            assert(v@.take(i + 1).last() == v@[i as int]);
            let key = &v[i].0;
            if is_allowlisted(key.as_str()) {
                let value = redact_text(v[i].1.as_str(), o);
                entries.push((crate::text::clone_string(key), value));
            }
            i = i + 1;
        }
        assert(v@.take(i as int) =~= v@);
        EnvVars { entries }
    }
}

/// The comparison rows that are shared: those of allowlisted variables.
pub open spec fn kept_rows(v: Seq<EnvironmentValue>) -> Seq<EnvironmentValue>
    decreases v.len(),
{
    if v.len() == 0 {
        Seq::empty()
    } else if allowlisted(v.last().key@) {
        kept_rows(v.drop_last()).push(v.last())
    } else {
        kept_rows(v.drop_last())
    }
}

impl Redact for EnvironmentComparison {
    open spec fn redacted_from(&self, src: EnvironmentComparison, o: RedactionOptions) -> bool {
        let k = kept_rows(src.entries@);
        &&& self.performed == src.performed
        &&& self.entries@.len() == k.len()
        &&& forall|i: int| 0 <= i < k.len() ==> (#[trigger] self.entries@[i]).redacted_from(k[i], o)
    }

    fn redact(&self, o: &RedactionOptions) -> (r: EnvironmentComparison) {
        let v = &self.entries;
        let mut entries: Vec<EnvironmentValue> = Vec::new();
        let mut i: usize = 0;
        while i < v.len()
            invariant
                i <= v@.len(),
                entries@.len() == kept_rows(v@.take(i as int)).len(),
                forall|j: int| 0 <= j < entries@.len() ==> (#[trigger] entries@[j]).redacted_from(kept_rows(v@.take(i as int))[j], *o),
            decreases v@.len() - i,
        {
            assert(v@.take(i + 1).drop_last() =~= v@.take(i as int));
            assert(v@.take(i + 1).last() == v@[i as int]);
            if is_allowlisted(v[i].key.as_str()) {
                entries.push(v[i].redact(o));
            }
            i = i + 1;
        }
        assert(v@.take(i as int) =~= v@);
        EnvironmentComparison { performed: self.performed, entries }
    }
}

impl Redact for VersionEvidenceSource {
    open spec fn redacted_from(&self, src: VersionEvidenceSource, o: RedactionOptions) -> bool {
        match *self {
            VersionEvidenceSource::FrontendExecutable { command } => src matches VersionEvidenceSource::FrontendExecutable { command: c }
                && command@ == redact_text_spec(c@, o),
            VersionEvidenceSource::DpkgQuery { package } => src matches VersionEvidenceSource::DpkgQuery { package: p }
                && package@ == redact_text_spec(p@, o),
        }
    }

    fn redact(&self, o: &RedactionOptions) -> (r: VersionEvidenceSource) {
        match self {
            VersionEvidenceSource::FrontendExecutable { command } => VersionEvidenceSource::FrontendExecutable { command: command.redact(o) },
            VersionEvidenceSource::DpkgQuery { package } => VersionEvidenceSource::DpkgQuery { package: package.redact(o) },
        }
    }
}

/// Only an unclassified outcome carries text.
impl Redact for DbusOutcome {
    open spec fn redacted_from(&self, src: DbusOutcome, o: RedactionOptions) -> bool {
        match src {
            DbusOutcome::Other(m) => *self matches DbusOutcome::Other(n) && n@ == redact_text_spec(m@, o),
            _ => *self == src,
        }
    }

    fn redact(&self, o: &RedactionOptions) -> (r: DbusOutcome) {
        match self {
            DbusOutcome::HasOwner => DbusOutcome::HasOwner,
            DbusOutcome::NoOwner => DbusOutcome::NoOwner,
            DbusOutcome::NoSessionBus => DbusOutcome::NoSessionBus,
            DbusOutcome::ActivationFailure => DbusOutcome::ActivationFailure,
            DbusOutcome::Timeout => DbusOutcome::Timeout,
            DbusOutcome::AccessDenied => DbusOutcome::AccessDenied,
            DbusOutcome::MalformedResponse => DbusOutcome::MalformedResponse,
            DbusOutcome::Other(m) => DbusOutcome::Other(m.redact(o)),
        }
    }
}

impl Redact for CollectionNote {
    open spec fn redacted_from(&self, src: CollectionNote, o: RedactionOptions) -> bool {
        &&& self.message.redacted_from(src.message, o)
    }

    fn redact(&self, o: &RedactionOptions) -> (r: CollectionNote) {
        CollectionNote { message: self.message.redact(o) }
    }
}

impl Redact for SystemInfo {
    open spec fn redacted_from(&self, src: SystemInfo, o: RedactionOptions) -> bool {
        &&& self.id.redacted_from(src.id, o)
        &&& self.name.redacted_from(src.name, o)
        &&& self.pretty_name.redacted_from(src.pretty_name, o)
        &&& self.version_id.redacted_from(src.version_id, o)
    }

    fn redact(&self, o: &RedactionOptions) -> (r: SystemInfo) {
        SystemInfo { id: self.id.redact(o), name: self.name.redact(o), pretty_name: self.pretty_name.redact(o), version_id: self.version_id.redact(o) }
    }
}

impl Redact for SessionInfo {
    open spec fn redacted_from(&self, src: SessionInfo, o: RedactionOptions) -> bool {
        &&& self.current_desktop.redacted_from(src.current_desktop, o)
        &&& self.session_desktop.redacted_from(src.session_desktop, o)
        &&& self.session_type == src.session_type
        &&& self.session_type_raw.redacted_from(src.session_type_raw, o)
        &&& self.wayland_display.redacted_from(src.wayland_display, o)
        &&& self.display.redacted_from(src.display, o)
    }

    fn redact(&self, o: &RedactionOptions) -> (r: SessionInfo) {
        SessionInfo { current_desktop: self.current_desktop.redact(o), session_desktop: self.session_desktop.redact(o), session_type: self.session_type, session_type_raw: self.session_type_raw.redact(o), wayland_display: self.wayland_display.redact(o), display: self.display.redact(o) }
    }
}

impl Redact for SearchRoots {
    open spec fn redacted_from(&self, src: SearchRoots, o: RedactionOptions) -> bool {
        &&& self.config_roots.redacted_from(src.config_roots, o)
        &&& self.data_roots.redacted_from(src.data_roots, o)
    }

    fn redact(&self, o: &RedactionOptions) -> (r: SearchRoots) {
        SearchRoots { config_roots: self.config_roots.redact(o), data_roots: self.data_roots.redact(o) }
    }
}

impl Redact for EnvironmentValue {
    open spec fn redacted_from(&self, src: EnvironmentValue, o: RedactionOptions) -> bool {
        &&& self.key.redacted_from(src.key, o)
        &&& self.process_value.redacted_from(src.process_value, o)
        &&& self.activation_value.redacted_from(src.activation_value, o)
        &&& self.relation == src.relation
    }

    fn redact(&self, o: &RedactionOptions) -> (r: EnvironmentValue) {
        EnvironmentValue { key: self.key.redact(o), process_value: self.process_value.redact(o), activation_value: self.activation_value.redact(o), relation: self.relation }
    }
}

impl Redact for EnvironmentInfo {
    open spec fn redacted_from(&self, src: EnvironmentInfo, o: RedactionOptions) -> bool {
        &&& self.process.redacted_from(src.process, o)
        &&& self.search_roots.redacted_from(src.search_roots, o)
        &&& self.activation_comparison.redacted_from(src.activation_comparison, o)
    }

    fn redact(&self, o: &RedactionOptions) -> (r: EnvironmentInfo) {
        EnvironmentInfo { process: self.process.redact(o), search_roots: self.search_roots.redact(o), activation_comparison: self.activation_comparison.redact(o) }
    }
}

impl Redact for Finding {
    open spec fn redacted_from(&self, src: Finding, o: RedactionOptions) -> bool {
        &&& self.id.redacted_from(src.id, o)
        &&& self.severity == src.severity
        &&& self.confidence == src.confidence
        &&& self.title.redacted_from(src.title, o)
        &&& self.summary.redacted_from(src.summary, o)
        &&& self.explanation.redacted_from(src.explanation, o)
        &&& self.evidence.redacted_from(src.evidence, o)
        &&& self.impact.redacted_from(src.impact, o)
        &&& self.recommendation.redacted_from(src.recommendation, o)
        &&& self.source_component.redacted_from(src.source_component, o)
    }

    fn redact(&self, o: &RedactionOptions) -> (r: Finding) {
        Finding { id: self.id.redact(o), severity: self.severity, confidence: self.confidence, title: self.title.redact(o), summary: self.summary.redact(o), explanation: self.explanation.redact(o), evidence: self.evidence.redact(o), impact: self.impact.redact(o), recommendation: self.recommendation.redact(o), source_component: self.source_component.redact(o) }
    }
}

impl Redact for JournalEntry {
    open spec fn redacted_from(&self, src: JournalEntry, o: RedactionOptions) -> bool {
        &&& self.unit.redacted_from(src.unit, o)
        &&& self.priority == src.priority
        &&& self.classification == src.classification
        &&& self.message.redacted_from(src.message, o)
    }

    fn redact(&self, o: &RedactionOptions) -> (r: JournalEntry) {
        JournalEntry { unit: self.unit.redact(o), priority: self.priority, classification: self.classification, message: self.message.redact(o) }
    }
}

impl Redact for JournalInfo {
    open spec fn redacted_from(&self, src: JournalInfo, o: RedactionOptions) -> bool {
        &&& self.model_version == src.model_version
        &&& self.window_minutes == src.window_minutes
        &&& self.max_entries == src.max_entries
        &&& self.scanned_entry_count == src.scanned_entry_count
        &&& self.ignored_entry_count == src.ignored_entry_count
        &&& self.match_state == src.match_state
        &&& self.entries.redacted_from(src.entries, o)
    }

    fn redact(&self, o: &RedactionOptions) -> (r: JournalInfo) {
        JournalInfo { model_version: self.model_version, window_minutes: self.window_minutes, max_entries: self.max_entries, scanned_entry_count: self.scanned_entry_count, ignored_entry_count: self.ignored_entry_count, match_state: self.match_state, entries: self.entries.redact(o) }
    }
}

impl Redact for PipeWireNode {
    open spec fn redacted_from(&self, src: PipeWireNode, o: RedactionOptions) -> bool {
        &&& self.id == src.id
        &&& self.media_class.redacted_from(src.media_class, o)
        &&& self.state.redacted_from(src.state, o)
        &&& self.is_video_source == src.is_video_source
        &&& self.is_screen_cast_source == src.is_screen_cast_source
    }

    fn redact(&self, o: &RedactionOptions) -> (r: PipeWireNode) {
        PipeWireNode { id: self.id, media_class: self.media_class.redact(o), state: self.state.redact(o), is_video_source: self.is_video_source, is_screen_cast_source: self.is_screen_cast_source }
    }
}

impl Redact for PipeWireLink {
    open spec fn redacted_from(&self, src: PipeWireLink, o: RedactionOptions) -> bool {
        &&& self.id == src.id
        &&& self.output_node_id == src.output_node_id
        &&& self.input_node_id == src.input_node_id
        &&& self.media_type.redacted_from(src.media_type, o)
        &&& self.state.redacted_from(src.state, o)
    }

    fn redact(&self, o: &RedactionOptions) -> (r: PipeWireLink) {
        PipeWireLink { id: self.id, output_node_id: self.output_node_id, input_node_id: self.input_node_id, media_type: self.media_type.redact(o), state: self.state.redact(o) }
    }
}

impl Redact for PipeWireInfo {
    open spec fn redacted_from(&self, src: PipeWireInfo, o: RedactionOptions) -> bool {
        &&& self.model_version == src.model_version
        &&& self.version.redacted_from(src.version, o)
        &&& self.object_count == src.object_count
        &&& self.node_count == src.node_count
        &&& self.link_count == src.link_count
        &&& self.portal_client_count == src.portal_client_count
        &&& self.screen_cast_source_count == src.screen_cast_source_count
        &&& self.nodes.redacted_from(src.nodes, o)
        &&& self.links.redacted_from(src.links, o)
    }

    fn redact(&self, o: &RedactionOptions) -> (r: PipeWireInfo) {
        PipeWireInfo { model_version: self.model_version, version: self.version.redact(o), object_count: self.object_count, node_count: self.node_count, link_count: self.link_count, portal_client_count: self.portal_client_count, screen_cast_source_count: self.screen_cast_source_count, nodes: self.nodes.redact(o), links: self.links.redact(o) }
    }
}

impl Redact for WirePlumberInfo {
    open spec fn redacted_from(&self, src: WirePlumberInfo, o: RedactionOptions) -> bool {
        &&& self.model_version == src.model_version
        &&& self.pipewire_version.redacted_from(src.pipewire_version, o)
        &&& self.wireplumber_client_count == src.wireplumber_client_count
    }

    fn redact(&self, o: &RedactionOptions) -> (r: WirePlumberInfo) {
        WirePlumberInfo { model_version: self.model_version, pipewire_version: self.pipewire_version.redact(o), wireplumber_client_count: self.wireplumber_client_count }
    }
}

impl Redact for PortalBackend {
    open spec fn redacted_from(&self, src: PortalBackend, o: RedactionOptions) -> bool {
        &&& self.id.redacted_from(src.id, o)
        &&& self.descriptor_path.redacted_from(src.descriptor_path, o)
        &&& self.duplicate_descriptors.redacted_from(src.duplicate_descriptors, o)
        &&& self.dbus_name.redacted_from(src.dbus_name, o)
        &&& self.interfaces.redacted_from(src.interfaces, o)
        &&& self.legacy_use_in.redacted_from(src.legacy_use_in, o)
    }

    fn redact(&self, o: &RedactionOptions) -> (r: PortalBackend) {
        PortalBackend { id: self.id.redact(o), descriptor_path: self.descriptor_path.redact(o), duplicate_descriptors: self.duplicate_descriptors.redact(o), dbus_name: self.dbus_name.redact(o), interfaces: self.interfaces.redact(o), legacy_use_in: self.legacy_use_in.redact(o) }
    }
}

impl Redact for PortalPreference {
    open spec fn redacted_from(&self, src: PortalPreference, o: RedactionOptions) -> bool {
        &&& self.interface.redacted_from(src.interface, o)
        &&& self.backends.redacted_from(src.backends, o)
        &&& self.source_file.redacted_from(src.source_file, o)
        &&& self.source_priority == src.source_priority
    }

    fn redact(&self, o: &RedactionOptions) -> (r: PortalPreference) {
        PortalPreference { interface: self.interface.redact(o), backends: self.backends.redact(o), source_file: self.source_file.redact(o), source_priority: self.source_priority }
    }
}

impl Redact for PortalConfigCandidate {
    open spec fn redacted_from(&self, src: PortalConfigCandidate, o: RedactionOptions) -> bool {
        &&& self.path.redacted_from(src.path, o)
        &&& self.source_priority == src.source_priority
        &&& self.status == src.status
        &&& self.preferences.redacted_from(src.preferences, o)
        &&& self.parse_errors.redacted_from(src.parse_errors, o)
    }

    fn redact(&self, o: &RedactionOptions) -> (r: PortalConfigCandidate) {
        PortalConfigCandidate { path: self.path.redact(o), source_priority: self.source_priority, status: self.status, preferences: self.preferences.redact(o), parse_errors: self.parse_errors.redact(o) }
    }
}

impl Redact for PortalConfigInfo {
    open spec fn redacted_from(&self, src: PortalConfigInfo, o: RedactionOptions) -> bool {
        &&& self.candidate_files.redacted_from(src.candidate_files, o)
        &&& self.selected_file.redacted_from(src.selected_file, o)
        &&& self.preferences.redacted_from(src.preferences, o)
        &&& self.parse_errors.redacted_from(src.parse_errors, o)
        &&& self.lower_priority_candidates.redacted_from(src.lower_priority_candidates, o)
    }

    fn redact(&self, o: &RedactionOptions) -> (r: PortalConfigInfo) {
        PortalConfigInfo { candidate_files: self.candidate_files.redact(o), selected_file: self.selected_file.redact(o), preferences: self.preferences.redact(o), parse_errors: self.parse_errors.redact(o), lower_priority_candidates: self.lower_priority_candidates.redact(o) }
    }
}

impl Redact for RouteEvidence {
    open spec fn redacted_from(&self, src: RouteEvidence, o: RedactionOptions) -> bool {
        &&& self.message.redacted_from(src.message, o)
    }

    fn redact(&self, o: &RedactionOptions) -> (r: RouteEvidence) {
        RouteEvidence { message: self.message.redact(o) }
    }
}

impl Redact for PortalRoute {
    open spec fn redacted_from(&self, src: PortalRoute, o: RedactionOptions) -> bool {
        &&& self.interface.redacted_from(src.interface, o)
        &&& self.requested_candidates.redacted_from(src.requested_candidates, o)
        &&& self.available_candidates.redacted_from(src.available_candidates, o)
        &&& self.selected_candidates.redacted_from(src.selected_candidates, o)
        &&& self.evidence.redacted_from(src.evidence, o)
        &&& self.status == src.status
    }

    fn redact(&self, o: &RedactionOptions) -> (r: PortalRoute) {
        PortalRoute { interface: self.interface.redact(o), requested_candidates: self.requested_candidates.redact(o), available_candidates: self.available_candidates.redact(o), selected_candidates: self.selected_candidates.redact(o), evidence: self.evidence.redact(o), status: self.status }
    }
}

impl Redact for PortalFrontendInfo {
    open spec fn redacted_from(&self, src: PortalFrontendInfo, o: RedactionOptions) -> bool {
        &&& self.component.redacted_from(src.component, o)
        &&& self.raw_version.redacted_from(src.raw_version, o)
        &&& self.normalized_version == src.normalized_version
        &&& self.source.redacted_from(src.source, o)
    }

    fn redact(&self, o: &RedactionOptions) -> (r: PortalFrontendInfo) {
        PortalFrontendInfo { component: self.component.redact(o), raw_version: self.raw_version.redact(o), normalized_version: self.normalized_version, source: self.source.redact(o) }
    }
}

impl Redact for DbusCheck {
    open spec fn redacted_from(&self, src: DbusCheck, o: RedactionOptions) -> bool {
        &&& self.name.redacted_from(src.name, o)
        &&& self.outcome.redacted_from(src.outcome, o)
    }

    fn redact(&self, o: &RedactionOptions) -> (r: DbusCheck) {
        DbusCheck { name: self.name.redact(o), outcome: self.outcome.redact(o) }
    }
}

impl Redact for DbusInfo {
    open spec fn redacted_from(&self, src: DbusInfo, o: RedactionOptions) -> bool {
        &&& self.connected == src.connected
        &&& self.checks.redacted_from(src.checks, o)
    }

    fn redact(&self, o: &RedactionOptions) -> (r: DbusInfo) {
        DbusInfo { connected: self.connected, checks: self.checks.redact(o) }
    }
}

impl Redact for UnitStatus {
    open spec fn redacted_from(&self, src: UnitStatus, o: RedactionOptions) -> bool {
        &&& self.unit.redacted_from(src.unit, o)
        &&& self.state == src.state
        &&& self.sub_state.redacted_from(src.sub_state, o)
        &&& self.unit_file_state.redacted_from(src.unit_file_state, o)
    }

    fn redact(&self, o: &RedactionOptions) -> (r: UnitStatus) {
        UnitStatus { unit: self.unit.redact(o), state: self.state, sub_state: self.sub_state.redact(o), unit_file_state: self.unit_file_state.redact(o) }
    }
}

impl Redact for ServiceInfo {
    open spec fn redacted_from(&self, src: ServiceInfo, o: RedactionOptions) -> bool {
        &&& self.units.redacted_from(src.units, o)
    }

    fn redact(&self, o: &RedactionOptions) -> (r: ServiceInfo) {
        ServiceInfo { units: self.units.redact(o) }
    }
}

impl Redact for Snapshot {
    open spec fn redacted_from(&self, src: Snapshot, o: RedactionOptions) -> bool {
        &&& self.schema_version == src.schema_version
        &&& self.collected_at == src.collected_at
        &&& self.system.redacted_from(src.system, o)
        &&& self.session.redacted_from(src.session, o)
        &&& self.environment.redacted_from(src.environment, o)
        &&& self.portal_config.redacted_from(src.portal_config, o)
        &&& self.portal_backends.redacted_from(src.portal_backends, o)
        &&& self.portal_routes.redacted_from(src.portal_routes, o)
        &&& self.portal_frontend.redacted_from(src.portal_frontend, o)
        &&& self.dbus.redacted_from(src.dbus, o)
        &&& self.services.redacted_from(src.services, o)
        &&& self.pipewire.redacted_from(src.pipewire, o)
        &&& self.wireplumber.redacted_from(src.wireplumber, o)
        &&& self.journal.redacted_from(src.journal, o)
    }

    fn redact(&self, o: &RedactionOptions) -> (r: Snapshot) {
        Snapshot { schema_version: self.schema_version, collected_at: self.collected_at, system: self.system.redact(o), session: self.session.redact(o), environment: self.environment.redact(o), portal_config: self.portal_config.redact(o), portal_backends: self.portal_backends.redact(o), portal_routes: self.portal_routes.redact(o), portal_frontend: self.portal_frontend.redact(o), dbus: self.dbus.redact(o), services: self.services.redact(o), pipewire: self.pipewire.redact(o), wireplumber: self.wireplumber.redact(o), journal: self.journal.redact(o) }
    }
}

impl Redact for Report {
    open spec fn redacted_from(&self, src: Report, o: RedactionOptions) -> bool {
        &&& self.schema_version == src.schema_version
        &&& self.portaldoctor_version.redacted_from(src.portaldoctor_version, o)
        &&& self.snapshot.redacted_from(src.snapshot, o)
        &&& self.findings.redacted_from(src.findings, o)
    }

    fn redact(&self, o: &RedactionOptions) -> (r: Report) {
        Report { schema_version: self.schema_version, portaldoctor_version: self.portaldoctor_version.redact(o), snapshot: self.snapshot.redact(o), findings: self.findings.redact(o) }
    }
}

/// Redact a report before it is shared: see [`Redact`] for what each part
/// becomes.
pub fn redact_report(report: &Report, options: &RedactionOptions) -> (r: Report)
    ensures
        r.redacted_from(*report, *options),
{
    report.redact(options)
}

} // verus!
