//! Normalized current-boot journal evidence.
use vstd::prelude::*;

verus! {

/// Version of the normalized journal model.
pub const JOURNAL_MODEL_VERSION: u32 = 1;

/// Result of matching stable journal patterns.
#[derive(Debug, Clone, Copy, PartialEq, Eq, Structural)]
pub enum JournalMatchState {
    Matched,
    NoRelevantEvidence,
    InsufficientEvidence,
}

impl JournalMatchState {
    pub open spec fn label_spec(self) -> Seq<char> {
        match self {
            JournalMatchState::Matched => "matched"@,
            JournalMatchState::NoRelevantEvidence => "no relevant evidence"@,
            JournalMatchState::InsufficientEvidence => "insufficient evidence"@,
        }
    }

    /// Stable label used by terminal renderers and documentation.
    pub fn as_str(self) -> (r: &'static str)
        ensures
            r@ == self.label_spec(),
    {
        match self {
            JournalMatchState::Matched => "matched",
            JournalMatchState::NoRelevantEvidence => "no relevant evidence",
            JournalMatchState::InsufficientEvidence => "insufficient evidence",
        }
    }
}

/// Stable, portal-relevant categories recognized from journal messages.
#[derive(Debug, Clone, Copy, PartialEq, Eq, Structural)]
pub enum JournalClassification {
    Portal,
    PipeWire,
    WirePlumber,
    ScreenCast,
}

impl JournalClassification {
    pub open spec fn label_spec(self) -> Seq<char> {
        match self {
            JournalClassification::Portal => "portal failure"@,
            JournalClassification::PipeWire => "PipeWire failure"@,
            JournalClassification::WirePlumber => "WirePlumber failure"@,
            JournalClassification::ScreenCast => "ScreenCast failure"@,
        }
    }

    /// Stable label used by terminal renderers.
    pub fn as_str(self) -> (r: &'static str)
        ensures
            r@ == self.label_spec(),
    {
        match self {
            JournalClassification::Portal => "portal failure",
            JournalClassification::PipeWire => "PipeWire failure",
            JournalClassification::WirePlumber => "WirePlumber failure",
            JournalClassification::ScreenCast => "ScreenCast failure",
        }
    }
}

/// Normalized current-boot/user-session journal evidence.
#[derive(Debug, Clone, PartialEq, Eq)]
pub struct JournalInfo {
    pub model_version: u32,
    pub window_minutes: u64,
    pub max_entries: usize,
    pub scanned_entry_count: usize,
    pub ignored_entry_count: usize,
    pub match_state: JournalMatchState,
    pub entries: Vec<JournalEntry>,
}

impl JournalInfo {
    /// Whether a stable classification is represented in the sanitized list.
    pub fn has_classification(&self, classification: JournalClassification) -> (r: bool)
        ensures
            r == exists|i: int|
                0 <= i < self.entries@.len() && (#[trigger] self.entries@[i]).classification
                    == classification,
    {
        let mut i: usize = 0;
        while i < self.entries.len()
            invariant
                i <= self.entries@.len(),
                forall|k: int| 0 <= k < i ==> (#[trigger] self.entries@[k]).classification != classification,
            decreases self.entries@.len() - i,
        {
            if self.entries[i].classification == classification {
                return true;
            }
            i = i + 1;
        }
        false
    }
}

/// A sanitized journal excerpt safe to expose through the snapshot.
#[derive(Debug, Clone, PartialEq, Eq)]
pub struct JournalEntry {
    pub unit: String,
    pub priority: u8,
    pub classification: JournalClassification,
    pub message: String,
}

} // verus!
