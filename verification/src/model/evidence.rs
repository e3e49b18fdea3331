//! Structured evidence attached to findings.
use vstd::prelude::*;

verus! {

/// Structured evidence attached to findings.
#[derive(Debug, Clone, Copy, PartialEq, Eq, Structural)]
pub enum Evidence {
    EnvironmentMismatch,
    ConfigSelection,
    ConfigCandidate,
    MissingProvider,
    DbusTimeout,
    ServiceState,
    JournalExcerpt,
    PipeWireState,
    WirePlumberState,
    ScreenCastRoute,
    PortalFrontendVersion,
}

impl Evidence {
    pub open spec fn label_spec(self) -> Seq<char> {
        match self {
            Evidence::EnvironmentMismatch => "environment mismatch"@,
            Evidence::ConfigSelection => "config selection"@,
            Evidence::ConfigCandidate => "config candidate"@,
            Evidence::MissingProvider => "missing provider"@,
            Evidence::DbusTimeout => "dbus timeout"@,
            Evidence::ServiceState => "service state"@,
            Evidence::JournalExcerpt => "journal excerpt"@,
            Evidence::PipeWireState => "pipewire state"@,
            Evidence::WirePlumberState => "wireplumber state"@,
            Evidence::ScreenCastRoute => "screencast route"@,
            Evidence::PortalFrontendVersion => "portal frontend version"@,
        }
    }

    /// Short human label used by renderers.
    pub fn as_str(&self) -> (r: &'static str)
        ensures
            r@ == self.label_spec(),
    {
        match self {
            Evidence::EnvironmentMismatch => "environment mismatch",
            Evidence::ConfigSelection => "config selection",
            Evidence::ConfigCandidate => "config candidate",
            Evidence::MissingProvider => "missing provider",
            Evidence::DbusTimeout => "dbus timeout",
            Evidence::ServiceState => "service state",
            Evidence::JournalExcerpt => "journal excerpt",
            Evidence::PipeWireState => "pipewire state",
            Evidence::WirePlumberState => "wireplumber state",
            Evidence::ScreenCastRoute => "screencast route",
            Evidence::PortalFrontendVersion => "portal frontend version",
        }
    }

    /// The label as an owned string (what `Display` prints).
    pub fn to_string(&self) -> (r: String)
        ensures
            r@ == self.label_spec(),
    {
        self.as_str().to_owned()
    }
}

} // verus!
