//! The normalized snapshot: the single state collected during a run.
use vstd::prelude::*;
use crate::model::dbus::DbusInfo;
use crate::model::environment::{EnvironmentInfo, SessionInfo, SystemInfo};
use crate::model::journal::JournalInfo;
use crate::model::pipewire::{PipeWireInfo, WirePlumberInfo};
use crate::model::portal::{PortalBackend, PortalConfigInfo, PortalRoute};
use crate::model::portal_frontend::PortalFrontendInfo;
use crate::model::section::Section;
use crate::model::service::ServiceInfo;
use crate::model::status::CollectorState;

verus! {

/// Version of the public JSON schema.
pub const PUBLIC_JSON_SCHEMA_VERSION: u32 = 1;

/// Version of the normalized snapshot schema.
pub const SNAPSHOT_SCHEMA_VERSION: u32 = 1;

/// Normalized snapshot: the single internal state collected during a run.
/// Rules consume this snapshot only.
#[derive(Debug, Clone, PartialEq, Eq)]
pub struct Snapshot {
    /// Snapshot schema version.
    pub schema_version: u32,
    /// Collection start time as Unix epoch milliseconds.
    pub collected_at: u64,
    pub system: Section<SystemInfo>,
    pub session: Section<SessionInfo>,
    pub environment: Section<EnvironmentInfo>,
    pub portal_config: Section<PortalConfigInfo>,
    pub portal_backends: Section<Vec<PortalBackend>>,
    pub portal_routes: Section<Vec<PortalRoute>>,
    pub portal_frontend: Section<PortalFrontendInfo>,
    pub dbus: Section<DbusInfo>,
    pub services: Section<ServiceInfo>,
    pub pipewire: Section<PipeWireInfo>,
    pub wireplumber: Section<WirePlumberInfo>,
    pub journal: Section<JournalInfo>,
}

/// A section that no collector has filled in yet.
pub open spec fn not_collected<T>(s: Section<T>) -> bool {
    s.failed_with(CollectorState::Unsupported, "not collected"@)
}

impl Snapshot {
    /// Start a snapshot for `collected_at`; every section starts as
    /// `Unsupported` ("not collected") until its collector fills it in.
    pub fn new(collected_at: u64) -> (s: Self)
        ensures
            s.schema_version == SNAPSHOT_SCHEMA_VERSION,
            s.collected_at == collected_at,
            not_collected(s.system),
            not_collected(s.session),
            not_collected(s.environment),
            not_collected(s.portal_config),
            not_collected(s.portal_backends),
            not_collected(s.portal_routes),
            not_collected(s.portal_frontend),
            not_collected(s.dbus),
            not_collected(s.services),
            not_collected(s.pipewire),
            not_collected(s.wireplumber),
            not_collected(s.journal),
    {
        Snapshot {
            schema_version: SNAPSHOT_SCHEMA_VERSION,
            collected_at,
            system: Section::unsupported("not collected"),
            session: Section::unsupported("not collected"),
            environment: Section::unsupported("not collected"),
            portal_config: Section::unsupported("not collected"),
            portal_backends: Section::unsupported("not collected"),
            portal_routes: Section::unsupported("not collected"),
            portal_frontend: Section::unsupported("not collected"),
            dbus: Section::unsupported("not collected"),
            services: Section::unsupported("not collected"),
            pipewire: Section::unsupported("not collected"),
            wireplumber: Section::unsupported("not collected"),
            journal: Section::unsupported("not collected"),
        }
    }
}

} // verus!
