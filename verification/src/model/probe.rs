//! The standalone, versioned result of an active portal probe.
use vstd::prelude::*;
use crate::text::{append, decimal, push_decimal};

verus! {

/// Version of the standalone active-probe result contract.
pub const PROBE_RESULT_SCHEMA_VERSION: u32 = 1;

/// Active portal family that produced a result.
#[derive(Debug, Clone, Copy, PartialEq, Eq, Structural)]
pub enum ProbeKind {
    FileChooser,
    Screenshot,
    ScreenCast,
}

/// Lifecycle stage at which a probe produced its terminal result.
#[derive(Debug, Clone, Copy, PartialEq, Eq, Structural)]
pub enum ProbeStage {
    Prepare,
    Request,
    Response,
    CreateSession,
    SelectSources,
    Start,
    StreamsReturned,
    OpenPipeWireRemote,
    Cleanup,
    Complete,
}

/// Terminal outcome of the portal operation itself; cleanup is reported
/// separately.
#[derive(Debug, Clone, Copy, PartialEq, Eq, Structural)]
pub enum ProbeStatus {
    Success,
    UserCancelled,
    TimedOut,
    Unavailable,
    Unsupported,
    MalformedResponse,
    InfrastructureFailure,
}

/// State of request/session/resource cleanup after a probe attempt.
#[derive(Debug, Clone, Copy, PartialEq, Eq, Structural)]
pub enum CleanupStatus {
    NotRequired,
    Completed,
    Failed,
    Unverified,
}

/// Resource whose cleanup could not be proven.
#[derive(Debug, Clone, Copy, PartialEq, Eq, Structural)]
pub enum CleanupResource {
    Request,
    Session,
    PipeWireRemote,
}

/// Validation failure for a machine-readable probe result.
#[derive(Debug, Clone, Copy, PartialEq, Eq, Structural)]
pub enum ProbeResultError {
    InvalidSchemaVersion { expected: u32, actual: u32 },
    CleanupResourcesNotAllowed { status: CleanupStatus },
    CleanupResourcesRequired,
    DuplicateCleanupResource { resource: CleanupResource },
    InvalidStageForProbe { probe: ProbeKind, stage: ProbeStage },
    InvalidCleanupResourceForProbe { probe: ProbeKind, resource: CleanupResource },
}

impl ProbeKind {
    pub open spec fn debug_spec(self) -> Seq<char> {
        match self {
            ProbeKind::FileChooser => "FileChooser"@,
            ProbeKind::Screenshot => "Screenshot"@,
            ProbeKind::ScreenCast => "ScreenCast"@,
        }
    }

    /// The variant name, as `Debug` prints it.
    pub fn debug_name(self) -> (r: &'static str)
        ensures
            r@ == self.debug_spec(),
    {
        match self {
            ProbeKind::FileChooser => "FileChooser",
            ProbeKind::Screenshot => "Screenshot",
            ProbeKind::ScreenCast => "ScreenCast",
        }
    }
}

impl ProbeStage {
    pub open spec fn debug_spec(self) -> Seq<char> {
        match self {
            ProbeStage::Prepare => "Prepare"@,
            ProbeStage::Request => "Request"@,
            ProbeStage::Response => "Response"@,
            ProbeStage::CreateSession => "CreateSession"@,
            ProbeStage::SelectSources => "SelectSources"@,
            ProbeStage::Start => "Start"@,
            ProbeStage::StreamsReturned => "StreamsReturned"@,
            ProbeStage::OpenPipeWireRemote => "OpenPipeWireRemote"@,
            ProbeStage::Cleanup => "Cleanup"@,
            ProbeStage::Complete => "Complete"@,
        }
    }

    /// The variant name, as `Debug` prints it.
    pub fn debug_name(self) -> (r: &'static str)
        ensures
            r@ == self.debug_spec(),
    {
        match self {
            ProbeStage::Prepare => "Prepare",
            ProbeStage::Request => "Request",
            ProbeStage::Response => "Response",
            ProbeStage::CreateSession => "CreateSession",
            ProbeStage::SelectSources => "SelectSources",
            ProbeStage::Start => "Start",
            ProbeStage::StreamsReturned => "StreamsReturned",
            ProbeStage::OpenPipeWireRemote => "OpenPipeWireRemote",
            ProbeStage::Cleanup => "Cleanup",
            ProbeStage::Complete => "Complete",
        }
    }

    /// Request/response stages for `FileChooser` and `Screenshot`; session
    /// stages for `ScreenCast`.
    pub open spec fn valid_for(self, probe: ProbeKind) -> bool {
        match probe {
            ProbeKind::FileChooser | ProbeKind::Screenshot => match self {
                ProbeStage::Prepare | ProbeStage::Request | ProbeStage::Response
                | ProbeStage::Cleanup | ProbeStage::Complete => true,
                _ => false,
            },
            ProbeKind::ScreenCast => match self {
                ProbeStage::Request | ProbeStage::Response => false,
                _ => true,
            },
        }
    }

    pub fn is_valid_for(self, probe: ProbeKind) -> (r: bool)
        ensures
            r == self.valid_for(probe),
    {
        match probe {
            ProbeKind::FileChooser | ProbeKind::Screenshot => match self {
                ProbeStage::Prepare | ProbeStage::Request | ProbeStage::Response
                | ProbeStage::Cleanup | ProbeStage::Complete => true,
                _ => false,
            },
            ProbeKind::ScreenCast => match self {
                ProbeStage::Request | ProbeStage::Response => false,
                _ => true,
            },
        }
    }
}

impl CleanupStatus {
    pub open spec fn debug_spec(self) -> Seq<char> {
        match self {
            CleanupStatus::NotRequired => "NotRequired"@,
            CleanupStatus::Completed => "Completed"@,
            CleanupStatus::Failed => "Failed"@,
            CleanupStatus::Unverified => "Unverified"@,
        }
    }

    /// The variant name, as `Debug` prints it.
    pub fn debug_name(self) -> (r: &'static str)
        ensures
            r@ == self.debug_spec(),
    {
        match self {
            CleanupStatus::NotRequired => "NotRequired",
            CleanupStatus::Completed => "Completed",
            CleanupStatus::Failed => "Failed",
            CleanupStatus::Unverified => "Unverified",
        }
    }
}

impl CleanupResource {
    pub open spec fn debug_spec(self) -> Seq<char> {
        match self {
            CleanupResource::Request => "Request"@,
            CleanupResource::Session => "Session"@,
            CleanupResource::PipeWireRemote => "PipeWireRemote"@,
        }
    }

    /// The variant name, as `Debug` prints it.
    pub fn debug_name(self) -> (r: &'static str)
        ensures
            r@ == self.debug_spec(),
    {
        match self {
            CleanupResource::Request => "Request",
            CleanupResource::Session => "Session",
            CleanupResource::PipeWireRemote => "PipeWireRemote",
        }
    }

    /// Request/response probes own only a request; `ScreenCast` may own
    /// every resource.
    pub open spec fn valid_for(self, probe: ProbeKind) -> bool {
        match probe {
            ProbeKind::FileChooser | ProbeKind::Screenshot => self == CleanupResource::Request,
            ProbeKind::ScreenCast => true,
        }
    }

    pub fn is_valid_for(self, probe: ProbeKind) -> (r: bool)
        ensures
            r == self.valid_for(probe),
    {
        match probe {
            ProbeKind::FileChooser | ProbeKind::Screenshot => self == CleanupResource::Request,
            ProbeKind::ScreenCast => true,
        }
    }
}

impl ProbeResultError {
    pub open spec fn message_spec(self) -> Seq<char> {
        match self {
            ProbeResultError::InvalidSchemaVersion { expected, actual } => "unsupported probe result schema version "@
                + decimal(actual as nat) + "; expected "@ + decimal(expected as nat),
            ProbeResultError::CleanupResourcesNotAllowed { status } => "cleanup status "@
                + status.debug_spec() + " cannot contain failed resources"@,
            ProbeResultError::CleanupResourcesRequired => "failed cleanup must identify at least one resource"@,
            ProbeResultError::DuplicateCleanupResource { resource } => "cleanup resource "@
                + resource.debug_spec() + " is listed more than once"@,
            ProbeResultError::InvalidStageForProbe { probe, stage } => "probe stage "@
                + stage.debug_spec() + " is not valid for probe "@ + probe.debug_spec(),
            ProbeResultError::InvalidCleanupResourceForProbe { probe, resource } => "cleanup resource "@
                + resource.debug_spec() + " is not valid for probe "@ + probe.debug_spec(),
        }
    }

    /// The error message, as `Display` prints it.
    pub fn to_string(&self) -> (r: String)
        ensures
            r@ == self.message_spec(),
    {
        let mut s = String::new();
        match *self {
            ProbeResultError::InvalidSchemaVersion { expected, actual } => {
                append(&mut s, "unsupported probe result schema version ");
                push_decimal(&mut s, actual as u64);
                append(&mut s, "; expected ");
                push_decimal(&mut s, expected as u64);
            },
            ProbeResultError::CleanupResourcesNotAllowed { status } => {
                append(&mut s, "cleanup status ");
                append(&mut s, status.debug_name());
                append(&mut s, " cannot contain failed resources");
            },
            ProbeResultError::CleanupResourcesRequired => {
                append(&mut s, "failed cleanup must identify at least one resource");
            },
            ProbeResultError::DuplicateCleanupResource { resource } => {
                append(&mut s, "cleanup resource ");
                append(&mut s, resource.debug_name());
                append(&mut s, " is listed more than once");
            },
            ProbeResultError::InvalidStageForProbe { probe, stage } => {
                append(&mut s, "probe stage ");
                append(&mut s, stage.debug_name());
                append(&mut s, " is not valid for probe ");
                append(&mut s, probe.debug_name());
            },
            ProbeResultError::InvalidCleanupResourceForProbe { probe, resource } => {
                append(&mut s, "cleanup resource ");
                append(&mut s, resource.debug_name());
                append(&mut s, " is not valid for probe ");
                append(&mut s, probe.debug_name());
            },
        }
        assert(s@ =~= self.message_spec());
        s
    }
}

/// The first resource that repeats an earlier one.
pub open spec fn first_duplicate(s: Seq<CleanupResource>) -> Option<CleanupResource>
    decreases s.len(),
{
    if s.len() == 0 {
        None
    } else {
        match first_duplicate(s.drop_last()) {
            Some(r) => Some(r),
            None => if s.drop_last().contains(s.last()) {
                Some(s.last())
            } else {
                None
            },
        }
    }
}

/// A single resource never repeats.
pub proof fn lemma_single_no_duplicate(r: CleanupResource)
    ensures
        first_duplicate(seq![r]) is None,
{
    reveal_with_fuel(first_duplicate, 2);
    assert(seq![r].drop_last() =~= Seq::<CleanupResource>::empty());
    assert(first_duplicate(Seq::<CleanupResource>::empty()) is None);
    assert(!Seq::<CleanupResource>::empty().contains(r));
    assert(seq![r].last() == r);
}

/// Consistency of a cleanup status with its resource list.
pub open spec fn cleanup_error(
    status: CleanupStatus,
    resources: Seq<CleanupResource>,
) -> Option<ProbeResultError> {
    if (status == CleanupStatus::NotRequired || status == CleanupStatus::Completed)
        && resources.len() > 0 {
        Some(ProbeResultError::CleanupResourcesNotAllowed { status })
    } else if status == CleanupStatus::Failed && resources.len() == 0 {
        Some(ProbeResultError::CleanupResourcesRequired)
    } else {
        match first_duplicate(resources) {
            Some(r) => Some(ProbeResultError::DuplicateCleanupResource { resource: r }),
            None => None,
        }
    }
}

/// Cleanup outcome kept independent from the portal operation outcome.
#[derive(Debug, Clone, PartialEq, Eq)]
pub struct CleanupResult {
    status: CleanupStatus,
    failed_resources: Vec<CleanupResource>,
}

#[verifier::loop_isolation(false)]
fn find_duplicate(v: &Vec<CleanupResource>) -> (r: Option<CleanupResource>)
    ensures
        r == first_duplicate(v@),
{
    let mut i: usize = 0;
    while i < v.len()
        invariant
            i <= v@.len(),
            first_duplicate(v@.take(i as int)) is None,
        decreases v@.len() - i,
    {
        let ghost prefix = v@.take(i + 1);
        assert(prefix.drop_last() =~= v@.take(i as int));
        let mut j: usize = 0;
        while j < i
            invariant
                j <= i < v@.len(),
                forall|k: int| 0 <= k < j ==> v@[k] != v@[i as int],
            decreases i - j,
        {
            if v[j] == v[i] {
                assert(v@.take(i as int)[j as int] == v@[i as int]);
                assert(v@.take(i as int).contains(v@[i as int]));
                assert(prefix.last() == v@[i as int]);
                assert(first_duplicate(prefix) == Some(v@[i as int]));
                proof {
                    lemma_first_duplicate_extends(v@, i + 1);
                }
                return Some(v[i]);
            }
            j = j + 1;
        }
        assert(!v@.take(i as int).contains(v@[i as int]));
        i = i + 1;
    }
    assert(v@.take(v@.len() as int) =~= v@);
    None
}

proof fn lemma_first_duplicate_extends(s: Seq<CleanupResource>, i: int)
    requires
        0 <= i <= s.len(),
        first_duplicate(s.take(i)) is Some,
    ensures
        first_duplicate(s) == first_duplicate(s.take(i)),
    decreases s.len() - i,
{
    if i < s.len() {
        assert(s.take(i + 1).drop_last() =~= s.take(i));
        lemma_first_duplicate_extends(s, i + 1);
    } else {
        assert(s.take(i) =~= s);
    }
}

impl CleanupResult {
    pub closed spec fn status_spec(&self) -> CleanupStatus {
        self.status
    }

    pub closed spec fn resources_spec(&self) -> Seq<CleanupResource> {
        self.failed_resources@
    }

    /// Status and resources agree.
    pub open spec fn valid(&self) -> bool {
        cleanup_error(self.status_spec(), self.resources_spec()) is None
    }

    /// Construct a result for a probe that acquired no closeable resource.
    pub fn not_required() -> (r: CleanupResult)
        ensures
            r.status_spec() == CleanupStatus::NotRequired,
            r.resources_spec().len() == 0,
            r.valid(),
    {
        CleanupResult { status: CleanupStatus::NotRequired, failed_resources: Vec::new() }
    }

    /// Construct a verified cleanup result.
    pub fn completed() -> (r: CleanupResult)
        ensures
            r.status_spec() == CleanupStatus::Completed,
            r.resources_spec().len() == 0,
            r.valid(),
    {
        CleanupResult { status: CleanupStatus::Completed, failed_resources: Vec::new() }
    }

    /// Construct a cleanup result with known failed resources.
    pub fn failed(failed_resources: Vec<CleanupResource>) -> (r: Result<CleanupResult, ProbeResultError>)
        ensures
            match r {
                Ok(c) => cleanup_error(CleanupStatus::Failed, failed_resources@) is None
                    && c.status_spec() == CleanupStatus::Failed && c.resources_spec()
                    == failed_resources@ && c.valid(),
                Err(e) => cleanup_error(CleanupStatus::Failed, failed_resources@) == Some(e),
            },
    {
        Self::try_new(CleanupStatus::Failed, failed_resources)
    }

    /// Construct a result where cleanup could not be proven.
    pub fn unverified() -> (r: CleanupResult)
        ensures
            r.status_spec() == CleanupStatus::Unverified,
            r.resources_spec().len() == 0,
            r.valid(),
    {
        CleanupResult { status: CleanupStatus::Unverified, failed_resources: Vec::new() }
    }

    /// Construct a result where ownership of the listed resources is known
    /// but their cleanup cannot be proven.
    pub fn unverified_resources(resources: Vec<CleanupResource>) -> (r: Result<CleanupResult, ProbeResultError>)
        ensures
            match r {
                Ok(c) => cleanup_error(CleanupStatus::Unverified, resources@) is None
                    && c.status_spec() == CleanupStatus::Unverified && c.resources_spec()
                    == resources@ && c.valid(),
                Err(e) => cleanup_error(CleanupStatus::Unverified, resources@) == Some(e),
            },
    {
        Self::try_new(CleanupStatus::Unverified, resources)
    }

    /// Construct and validate an arbitrary cleanup state.
    pub fn try_new(status: CleanupStatus, failed_resources: Vec<CleanupResource>) -> (r: Result<CleanupResult, ProbeResultError>)
        ensures
            match r {
                Ok(c) => cleanup_error(status, failed_resources@) is None && c.status_spec()
                    == status && c.resources_spec() == failed_resources@ && c.valid(),
                Err(e) => cleanup_error(status, failed_resources@) == Some(e),
            },
    {
        let result = CleanupResult { status, failed_resources };
        match result.validate() {
            Ok(()) => Ok(result),
            Err(e) => Err(e),
        }
    }

    /// Validate cleanup status/resource consistency.
    pub fn validate(&self) -> (r: Result<(), ProbeResultError>)
        ensures
            match r {
                Ok(()) => cleanup_error(self.status_spec(), self.resources_spec()) is None,
                Err(e) => cleanup_error(self.status_spec(), self.resources_spec()) == Some(e),
            },
    {
        match self.status {
            CleanupStatus::NotRequired | CleanupStatus::Completed => {
                if self.failed_resources.len() > 0 {
                    return Err(ProbeResultError::CleanupResourcesNotAllowed { status: self.status });
                }
            },
            CleanupStatus::Failed => {
                if self.failed_resources.len() == 0 {
                    return Err(ProbeResultError::CleanupResourcesRequired);
                }
            },
            CleanupStatus::Unverified => {},
        }
        match find_duplicate(&self.failed_resources) {
            Some(resource) => Err(ProbeResultError::DuplicateCleanupResource { resource }),
            None => Ok(()),
        }
    }

    pub fn status(&self) -> (r: CleanupStatus)
        ensures
            r == self.status_spec(),
    {
        self.status
    }

    pub fn failed_resources(&self) -> (r: &[CleanupResource])
        ensures
            r@ == self.resources_spec(),
    {
        self.failed_resources.as_slice()
    }

    /// A copy of this cleanup result.
    pub fn duplicate(&self) -> (r: CleanupResult)
        ensures
            r.status_spec() == self.status_spec(),
            r.resources_spec() == self.resources_spec(),
    {
        let mut v: Vec<CleanupResource> = Vec::new();
        let mut i: usize = 0;
        while i < self.failed_resources.len()
            invariant
                i <= self.failed_resources@.len(),
                v@ == self.failed_resources@.take(i as int),
            decreases self.failed_resources@.len() - i,
        {
            v.push(self.failed_resources[i]);
            i = i + 1;
            assert(v@ =~= self.failed_resources@.take(i as int));
        }
        assert(self.failed_resources@.take(i as int) =~= self.failed_resources@);
        CleanupResult { status: self.status, failed_resources: v }
    }
}

/// The first listed resource that the probe cannot own.
pub open spec fn first_invalid_resource(s: Seq<CleanupResource>, probe: ProbeKind) -> Option<CleanupResource>
    decreases s.len(),
{
    if s.len() == 0 {
        None
    } else if !s[0].valid_for(probe) {
        Some(s[0])
    } else {
        first_invalid_resource(s.drop_first(), probe)
    }
}

/// When every listed resource belongs to the probe, none is invalid.
pub proof fn lemma_resources_valid_for(s: Seq<CleanupResource>, probe: ProbeKind)
    requires
        forall|k: int| 0 <= k < s.len() ==> (#[trigger] s[k]).valid_for(probe),
    ensures
        first_invalid_resource(s, probe) is None,
{
    lemma_first_invalid(s, probe, s.len() as int);
}

proof fn lemma_first_invalid(s: Seq<CleanupResource>, probe: ProbeKind, i: int)
    requires
        0 <= i <= s.len(),
        forall|k: int| 0 <= k < i ==> (#[trigger] s[k]).valid_for(probe),
    ensures
        i < s.len() && !s[i].valid_for(probe) ==> first_invalid_resource(s, probe) == Some(s[i]),
        i == s.len() ==> first_invalid_resource(s, probe) is None,
    decreases i,
{
    if i > 0 {
        lemma_first_invalid(s.drop_first(), probe, i - 1);
    }
}

/// Every way a probe result can be inconsistent, in checking order.
pub open spec fn probe_error(
    schema_version: u32,
    probe: ProbeKind,
    stage: ProbeStage,
    cleanup: CleanupResult,
) -> Option<ProbeResultError> {
    if schema_version != PROBE_RESULT_SCHEMA_VERSION {
        Some(ProbeResultError::InvalidSchemaVersion { expected: PROBE_RESULT_SCHEMA_VERSION, actual: schema_version })
    } else if !stage.valid_for(probe) {
        Some(ProbeResultError::InvalidStageForProbe { probe, stage })
    } else if cleanup_error(cleanup.status_spec(), cleanup.resources_spec()) is Some {
        cleanup_error(cleanup.status_spec(), cleanup.resources_spec())
    } else {
        match first_invalid_resource(cleanup.resources_spec(), probe) {
            Some(r) => Some(ProbeResultError::InvalidCleanupResourceForProbe { probe, resource: r }),
            None => None,
        }
    }
}

/// Stable machine-readable result shared by `FileChooser`, `Screenshot` and
/// `ScreenCast` probes.
#[derive(Debug, Clone, PartialEq, Eq)]
pub struct ProbeResult {
    schema_version: u32,
    probe: ProbeKind,
    stage: ProbeStage,
    status: ProbeStatus,
    cleanup: CleanupResult,
}

impl ProbeResult {
    pub closed spec fn schema_spec(&self) -> u32 {
        self.schema_version
    }

    pub closed spec fn probe_spec(&self) -> ProbeKind {
        self.probe
    }

    pub closed spec fn stage_spec(&self) -> ProbeStage {
        self.stage
    }

    pub closed spec fn status_spec(&self) -> ProbeStatus {
        self.status
    }

    pub closed spec fn cleanup_spec(&self) -> CleanupResult {
        self.cleanup
    }

    /// Schema version, stage, cleanup and resources all agree.
    pub open spec fn valid(&self) -> bool {
        probe_error(self.schema_spec(), self.probe_spec(), self.stage_spec(), self.cleanup_spec()) is None
    }

    /// Construct a validated v1 result.
    pub fn new(
        probe: ProbeKind,
        stage: ProbeStage,
        status: ProbeStatus,
        cleanup: CleanupResult,
    ) -> (r: Result<ProbeResult, ProbeResultError>)
        ensures
            match r {
                Ok(p) => probe_error(PROBE_RESULT_SCHEMA_VERSION, probe, stage, cleanup) is None
                    && p.schema_spec() == PROBE_RESULT_SCHEMA_VERSION && p.probe_spec() == probe
                    && p.stage_spec() == stage && p.status_spec() == status && p.cleanup_spec()
                    == cleanup && p.valid(),
                Err(e) => probe_error(PROBE_RESULT_SCHEMA_VERSION, probe, stage, cleanup) == Some(e),
            },
    {
        Self::from_parts(PROBE_RESULT_SCHEMA_VERSION, probe, stage, status, cleanup)
    }

    /// Assemble a v1 result from parts already known to agree.
    pub(crate) fn from_valid_parts(
        probe: ProbeKind,
        stage: ProbeStage,
        status: ProbeStatus,
        cleanup: CleanupResult,
    ) -> (r: ProbeResult)
        requires
            probe_error(PROBE_RESULT_SCHEMA_VERSION, probe, stage, cleanup) is None,
        ensures
            r.schema_spec() == PROBE_RESULT_SCHEMA_VERSION,
            r.probe_spec() == probe,
            r.stage_spec() == stage,
            r.status_spec() == status,
            r.cleanup_spec() == cleanup,
            r.valid(),
    {
        ProbeResult { schema_version: PROBE_RESULT_SCHEMA_VERSION, probe, stage, status, cleanup }
    }

    /// Construct a result from decoded parts, validating every invariant.
    pub fn from_parts(
        schema_version: u32,
        probe: ProbeKind,
        stage: ProbeStage,
        status: ProbeStatus,
        cleanup: CleanupResult,
    ) -> (r: Result<ProbeResult, ProbeResultError>)
        ensures
            match r {
                Ok(p) => probe_error(schema_version, probe, stage, cleanup) is None
                    && p.schema_spec() == schema_version && p.probe_spec() == probe
                    && p.stage_spec() == stage && p.status_spec() == status && p.cleanup_spec()
                    == cleanup && p.valid(),
                Err(e) => probe_error(schema_version, probe, stage, cleanup) == Some(e),
            },
    {
        let result = ProbeResult { schema_version, probe, stage, status, cleanup };
        match result.validate() {
            Ok(()) => Ok(result),
            Err(e) => Err(e),
        }
    }

    /// Validate schema version and all nested invariants.
    #[verifier::loop_isolation(false)]
    pub fn validate(&self) -> (r: Result<(), ProbeResultError>)
        ensures
            match r {
                Ok(()) => self.valid(),
                Err(e) => probe_error(self.schema_spec(), self.probe_spec(), self.stage_spec(), self.cleanup_spec())
                    == Some(e),
            },
    {
        if self.schema_version != PROBE_RESULT_SCHEMA_VERSION {
            return Err(ProbeResultError::InvalidSchemaVersion {
                expected: PROBE_RESULT_SCHEMA_VERSION,
                actual: self.schema_version,
            });
        }
        if !self.stage.is_valid_for(self.probe) {
            return Err(ProbeResultError::InvalidStageForProbe { probe: self.probe, stage: self.stage });
        }
        match self.cleanup.validate() {
            Ok(()) => {},
            Err(e) => return Err(e),
        }
        let resources = self.cleanup.failed_resources();
        let mut i: usize = 0;
        while i < resources.len()
            invariant
                resources@ == self.cleanup.resources_spec(),
                i <= resources@.len(),
                forall|k: int| 0 <= k < i ==> (#[trigger] resources@[k]).valid_for(self.probe),
            decreases resources@.len() - i,
        {
            if !resources[i].is_valid_for(self.probe) {
                proof {
                    lemma_first_invalid(resources@, self.probe, i as int);
                }
                return Err(ProbeResultError::InvalidCleanupResourceForProbe {
                    probe: self.probe,
                    resource: resources[i],
                });
            }
            i = i + 1;
        }
        proof {
            lemma_first_invalid(resources@, self.probe, i as int);
        }
        Ok(())
    }

    /// A clean success: the portal operation succeeded and cleanup was
    /// unnecessary or completed without failures.
    pub open spec fn clean_success(&self) -> bool {
        &&& self.valid()
        &&& self.status_spec() == ProbeStatus::Success
        &&& (self.cleanup_spec().status_spec() == CleanupStatus::NotRequired
            || self.cleanup_spec().status_spec() == CleanupStatus::Completed)
        &&& self.cleanup_spec().resources_spec().len() == 0
    }

    pub fn is_clean_success(&self) -> (r: bool)
        ensures
            r == self.clean_success(),
    {
        let ok = match self.validate() {
            Ok(()) => true,
            Err(_) => false,
        };
        ok && self.status == ProbeStatus::Success && (self.cleanup.status()
            == CleanupStatus::NotRequired || self.cleanup.status() == CleanupStatus::Completed)
            && self.cleanup.failed_resources().len() == 0
    }

    pub fn schema_version(&self) -> (r: u32)
        ensures
            r == self.schema_spec(),
    {
        self.schema_version
    }

    pub fn probe(&self) -> (r: ProbeKind)
        ensures
            r == self.probe_spec(),
    {
        self.probe
    }

    pub fn stage(&self) -> (r: ProbeStage)
        ensures
            r == self.stage_spec(),
    {
        self.stage
    }

    pub fn status(&self) -> (r: ProbeStatus)
        ensures
            r == self.status_spec(),
    {
        self.status
    }

    pub fn cleanup(&self) -> (r: &CleanupResult)
        ensures
            *r == self.cleanup_spec(),
    {
        &self.cleanup
    }
}

/// A constructed cleanup result is always consistent: `try_new` and every
/// constructor refuse status/resource combinations that disagree.
pub proof fn law_cleanup_constructors_validate(status: CleanupStatus, resources: Seq<CleanupResource>)
    ensures
        cleanup_error(status, resources) is None ==> (status == CleanupStatus::Failed ==> resources.len() > 0),
        cleanup_error(status, resources) is None ==> ((status == CleanupStatus::NotRequired || status == CleanupStatus::Completed) ==> resources.len() == 0),
        cleanup_error(status, resources) is None ==> first_duplicate(resources) is None,
{
}

/// Cleanup failure is independent from the operation status: a result whose
/// cleanup failed or is unverified is never a clean success, whatever the
/// portal operation returned.
pub proof fn law_failed_cleanup_is_never_clean(r: ProbeResult)
    requires
        r.cleanup_spec().status_spec() == CleanupStatus::Failed
            || r.cleanup_spec().status_spec() == CleanupStatus::Unverified,
    ensures
        !r.clean_success(),
{
}

/// Only a successful operation can be a clean success.
pub proof fn law_clean_success_requires_success(r: ProbeResult)
    requires
        r.clean_success(),
    ensures
        r.status_spec() == ProbeStatus::Success,
        r.valid(),
{
}

} // verus!
