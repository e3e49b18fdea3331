//! Outcome of a collector execution.
use vstd::prelude::*;

verus! {

/// Outcome of a collector execution, shared by every collector: a missing
/// dependency, a blocked call and unparsable data stay distinct.
#[derive(Debug, Clone, Copy, PartialEq, Eq, Structural)]
pub enum CollectorState {
    Available,
    Unavailable,
    Unsupported,
    TimedOut,
    PermissionDenied,
    ParseError,
}

impl CollectorState {
    /// Human-readable label.
    pub fn label(self) -> (r: &'static str)
        ensures
            r@ == self.label_spec(),
    {
        match self {
            CollectorState::Available => "available",
            CollectorState::Unavailable => "unavailable",
            CollectorState::Unsupported => "unsupported",
            CollectorState::TimedOut => "timed out",
            CollectorState::PermissionDenied => "permission denied",
            CollectorState::ParseError => "parse error",
        }
    }

    pub open spec fn label_spec(self) -> Seq<char> {
        match self {
            CollectorState::Available => "available"@,
            CollectorState::Unavailable => "unavailable"@,
            CollectorState::Unsupported => "unsupported"@,
            CollectorState::TimedOut => "timed out"@,
            CollectorState::PermissionDenied => "permission denied"@,
            CollectorState::ParseError => "parse error"@,
        }
    }

    /// The label as an owned string (what `Display` prints).
    pub fn to_string(self) -> (r: String)
        ensures
            r@ == self.label_spec(),
    {
        self.label().to_owned()
    }
}

} // verus!
