//! Portal backend descriptors, configuration and resolved routes.
use vstd::prelude::*;
use crate::model::status::CollectorState;
use crate::text::{eq_str, views};

verus! {

/// A portal backend descriptor parsed from a `.portal` file.
#[derive(Debug, Clone, PartialEq, Eq)]
pub struct PortalBackend {
    /// Backend identifier; the `.portal` file stem.
    pub id: String,
    /// Descriptor path that won discovery precedence.
    pub descriptor_path: String,
    /// Descriptor paths that defined the same id at lower precedence.
    pub duplicate_descriptors: Vec<String>,
    pub dbus_name: String,
    /// Implemented interfaces, sorted and without repetition.
    pub interfaces: Vec<String>,
    /// Legacy `UseIn` desktop restrictions; empty means unrestricted.
    pub legacy_use_in: Vec<String>,
}

impl PortalBackend {
    pub open spec fn implements(&self, interface: Seq<char>) -> bool {
        views(self.interfaces@).contains(interface)
    }

    /// Whether the descriptor lists `interface`.
    pub fn has_interface(&self, interface: &str) -> (r: bool)
        ensures
            r == self.implements(interface@),
    {
        let mut i: usize = 0;
        while i < self.interfaces.len()
            invariant
                i <= self.interfaces@.len(),
                forall|k: int| 0 <= k < i ==> (#[trigger] self.interfaces@[k])@ != interface@,
            decreases self.interfaces@.len() - i,
        {
            if eq_str(self.interfaces[i].as_str(), interface) {
                assert(views(self.interfaces@)[i as int] == interface@);
                return true;
            }
            i = i + 1;
        }
        assert(!views(self.interfaces@).contains(interface@)) by {
            if views(self.interfaces@).contains(interface@) {
                let k = choose|k: int| 0 <= k < views(self.interfaces@).len() && views(self.interfaces@)[k] == interface@;
                assert(self.interfaces@[k]@ == interface@);
            }
        }
        false
    }
}

/// One parsed preference from a `portals.conf`.
#[derive(Debug, Clone, PartialEq, Eq)]
pub struct PortalPreference {
    pub interface: String,
    /// Ordered backend tokens; may include `*` or `none`.
    pub backends: Vec<String>,
    pub source_file: String,
    pub source_priority: usize,
}

/// A lower-precedence configuration candidate that was also read.
#[derive(Debug, Clone, PartialEq, Eq)]
pub struct PortalConfigCandidate {
    pub path: String,
    pub source_priority: usize,
    pub status: CollectorState,
    pub preferences: Vec<PortalPreference>,
    pub parse_errors: Vec<String>,
}

/// Parsed portal configuration state.
#[derive(Debug, Clone, PartialEq, Eq)]
pub struct PortalConfigInfo {
    /// Every candidate file in precedence order (desktop-specific first).
    pub candidate_files: Vec<String>,
    /// The candidate that existed and was parsed, if any.
    pub selected_file: Option<String>,
    pub preferences: Vec<PortalPreference>,
    pub parse_errors: Vec<String>,
    /// Lower-precedence candidates, kept as provenance.
    pub lower_priority_candidates: Vec<PortalConfigCandidate>,
}

/// Outcome of route resolution for one portal interface.
#[derive(Debug, Clone, PartialEq, Eq)]
pub struct PortalRoute {
    pub interface: String,
    /// Backend tokens requested by configuration; empty means "any".
    pub requested_candidates: Vec<String>,
    /// Backends discovered with the interface and allowed by `UseIn`.
    pub available_candidates: Vec<String>,
    /// Backends actually selected for this desktop.
    pub selected_candidates: Vec<String>,
    pub evidence: Vec<RouteEvidence>,
    pub status: RouteStatus,
}

/// One provenance step of a resolved route.
#[derive(Debug, Clone, PartialEq, Eq)]
pub struct RouteEvidence {
    pub message: String,
}

/// Why a route ended in its current state.
#[derive(Debug, Clone, Copy, PartialEq, Eq, Structural)]
pub enum RouteStatus {
    /// At least one backend is selected.
    Selected,
    /// Explicitly disabled via `none`.
    Disabled,
    /// No backend can serve the interface in this desktop context.
    NoProvider,
}

impl RouteStatus {
    pub open spec fn label_spec(self) -> Seq<char> {
        match self {
            RouteStatus::Selected => "selected"@,
            RouteStatus::Disabled => "disabled"@,
            RouteStatus::NoProvider => "no provider"@,
        }
    }

    /// Human-readable label used by renderers.
    pub fn as_str(self) -> (r: &'static str)
        ensures
            r@ == self.label_spec(),
    {
        match self {
            RouteStatus::Selected => "selected",
            RouteStatus::Disabled => "disabled",
            RouteStatus::NoProvider => "no provider",
        }
    }
}

} // verus!
