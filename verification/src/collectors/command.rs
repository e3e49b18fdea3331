//! How the outcome of a bounded external command becomes a snapshot
//! section: spawn failures, abnormal exits, time-outs and oversized output
//! each get their own collection status.
use vstd::prelude::*;
use crate::model::section::Section;
use crate::model::status::CollectorState;
use crate::text::{concat2, concat3, concat4, contains_seq, contains_str, lower, to_ascii_lowercase};

verus! {

/// Why a command could not be started.
#[derive(Debug, Clone, PartialEq, Eq)]
pub enum SpawnError {
    NotFound,
    PermissionDenied,
    /// Any other I/O error, by its kind's description.
    Other(String),
}

/// The section for a command that could not be started.
pub open spec fn spawn_failure_spec(label: Seq<char>, err: SpawnError) -> (CollectorState, Seq<char>) {
    match err {
        SpawnError::NotFound => (CollectorState::Unsupported, label + " is not installed"@),
        SpawnError::PermissionDenied => (CollectorState::PermissionDenied, "cannot execute "@ + label
            + ": permission denied"@),
        SpawnError::Other(kind) => (CollectorState::Unavailable, "cannot execute "@ + label + ": "@ + kind@),
    }
}

pub fn spawn_failure<T>(label: &str, err: &SpawnError) -> (s: Section<T>)
    ensures
        s.failed_with(spawn_failure_spec(label@, *err).0, spawn_failure_spec(label@, *err).1),
{
    match err {
        SpawnError::NotFound => {
            let m = concat2(label, " is not installed");
            Section::unsupported(m.as_str())
        },
        SpawnError::PermissionDenied => {
            let m = concat3("cannot execute ", label, ": permission denied");
            Section::permission_denied(m.as_str())
        },
        SpawnError::Other(kind) => {
            let m = concat4("cannot execute ", label, ": ", kind.as_str());
            Section::unavailable(m.as_str())
        },
    }
}

/// The section for a command that exited unsuccessfully: exit code 126 or
/// a "permission denied" on stderr is a permission problem, 127 a missing
/// command, anything else an unavailable collector. `status_text` is how
/// the exit status prints.
pub open spec fn command_failure_spec(
    label: Seq<char>,
    code: Option<i32>,
    stderr: Seq<char>,
    status_text: Seq<char>,
) -> (CollectorState, Seq<char>) {
    if code == Some(126i32) || contains_seq(lower(stderr), "permission denied"@) {
        (CollectorState::PermissionDenied, label + " was denied permission to run"@)
    } else if code == Some(127i32) {
        (CollectorState::Unsupported, label + " command is unavailable"@)
    } else {
        (CollectorState::Unavailable, label + " exited with "@ + status_text)
    }
}

pub fn command_failure<T>(label: &str, code: Option<i32>, stderr: &str, status_text: &str) -> (s: Section<T>)
    ensures
        s.failed_with(
            command_failure_spec(label@, code, stderr@, status_text@).0,
            command_failure_spec(label@, code, stderr@, status_text@).1,
        ),
{
    let lowered = to_ascii_lowercase(stderr);
    if code == Some(126i32) || contains_str(lowered.as_str(), "permission denied") {
        let m = concat2(label, " was denied permission to run");
        return Section::permission_denied(m.as_str());
    }
    if code == Some(127i32) {
        let m = concat2(label, " command is unavailable");
        return Section::unsupported(m.as_str());
    }
    let m = concat3(label, " exited with ", status_text);
    Section::unavailable(m.as_str())
}

} // verus!
