//! Runtime D-Bus reachability model.
use vstd::prelude::*;

verus! {

/// Outcome of one D-Bus name check; no session bus, name absent,
/// activation failure, timeout, access denied and malformed response are
/// kept distinct.
#[derive(Debug, Clone, PartialEq, Eq)]
pub enum DbusOutcome {
    /// The name exists and has an owner.
    HasOwner,
    /// The name exists but nobody owns it (not activated).
    NoOwner,
    /// No session bus could be reached at all.
    NoSessionBus,
    ActivationFailure,
    Timeout,
    AccessDenied,
    MalformedResponse,
    /// Failure outside the known taxonomy; the message is preserved.
    Other(String),
}

/// One probed D-Bus name (the portal frontend or a selected backend).
#[derive(Debug, Clone, PartialEq, Eq)]
pub struct DbusCheck {
    pub name: String,
    pub outcome: DbusOutcome,
}

/// Runtime D-Bus state collected during a run.
#[derive(Debug, Clone, PartialEq, Eq)]
pub struct DbusInfo {
    /// Whether a session bus connection was established.
    pub connected: bool,
    pub checks: Vec<DbusCheck>,
}

/// The XDG Desktop Portal frontend well-known name.
pub const PORTAL_FRONTEND_NAME: &'static str = "org.freedesktop.portal.Desktop";

} // verus!
