//! The central time budgets, and the decisions of a bounded command run:
//! when to keep reading, when to stop and kill the child, and what the run
//! amounts to. The caller owns the process, its pipes and the clock.
use vstd::prelude::*;

verus! {

/// Budget of short metadata calls, in milliseconds.
pub const SHORT_METADATA_MS: u64 = 2000;

/// Budget of normal runtime queries, in milliseconds.
pub const NORMAL_RUNTIME_QUERY_MS: u64 = 3000;

/// Size of one read from a child's pipe.
pub const PIPE_READ_CHUNK: usize = 16384;

/// Pause between two polls of a running child, in milliseconds.
pub const POLL_INTERVAL_MS: u64 = 10;

/// Whether a chunk of `count` bytes still fits after `captured` bytes
/// under a limit of `max` bytes.
pub fn chunk_fits(count: usize, captured: usize, max: usize) -> (r: bool)
    ensures
        r == (captured + count <= max || (captured > max && count == 0)),
{
    let room = if captured <= max { max - captured } else { 0 };
    count <= room
}

/// What has been received from one of the child's pipes.
#[derive(Debug, Clone, Copy, PartialEq, Eq, Structural)]
pub enum PipeState {
    Pending,
    /// Drained completely within the limit.
    Complete,
    /// More bytes than the limit.
    TooLarge,
    /// Reading failed.
    Failed,
}

/// What is known of the child process.
#[derive(Debug, Clone, Copy, PartialEq, Eq, Structural)]
pub enum ChildState {
    Running,
    Exited,
    /// Asking for its status failed.
    WaitFailed,
}

/// What the poll loop does next.
#[derive(Debug, Clone, Copy, PartialEq, Eq, Structural)]
pub enum PollStep {
    /// Kill and reap the child: a pipe exceeded the limit.
    StopOutputLimitExceeded,
    /// Kill and reap the child: its status could not be read.
    StopWaitFailed,
    /// The child exited and its output is drained.
    Finished,
    /// Kill and reap the child: the deadline passed.
    StopTimedOut,
    /// Sleep one poll interval and poll again.
    Sleep,
}

pub open spec fn drained(stdout: PipeState, stderr: Option<PipeState>) -> bool {
    stdout != PipeState::Pending && (stderr matches Some(e) ==> e != PipeState::Pending)
}

pub open spec fn poll_spec(stdout: PipeState, stderr: Option<PipeState>, child: ChildState, deadline_passed: bool) -> PollStep {
    if stdout == PipeState::TooLarge || stderr == Some(PipeState::TooLarge) {
        PollStep::StopOutputLimitExceeded
    } else if child == ChildState::WaitFailed {
        PollStep::StopWaitFailed
    } else if child == ChildState::Exited && drained(stdout, stderr) {
        PollStep::Finished
    } else if deadline_passed {
        PollStep::StopTimedOut
    } else {
        PollStep::Sleep
    }
}

/// One poll of a bounded run: an oversized pipe stops it first, then a
/// failed status query; a run whose child exited with every pipe drained
/// is finished; past the deadline the child is killed.
pub fn poll_step(stdout: PipeState, stderr: Option<PipeState>, child: ChildState, deadline_passed: bool) -> (r: PollStep)
    ensures
        r == poll_spec(stdout, stderr, child, deadline_passed),
{
    if stdout == PipeState::TooLarge || stderr == Some(PipeState::TooLarge) {
        return PollStep::StopOutputLimitExceeded;
    }
    if child == ChildState::WaitFailed {
        return PollStep::StopWaitFailed;
    }
    let stderr_drained = match stderr {
        Some(e) => e != PipeState::Pending,
        None => true,
    };
    if child == ChildState::Exited && stdout != PipeState::Pending && stderr_drained {
        return PollStep::Finished;
    }
    if deadline_passed {
        PollStep::StopTimedOut
    } else {
        PollStep::Sleep
    }
}

/// What a finished run amounts to.
#[derive(Debug, Clone, Copy, PartialEq, Eq, Structural)]
pub enum RunResult {
    /// Both pipes drained within the limit (a missing stderr is empty).
    Completed,
    OutputLimitExceeded,
    /// A pipe failed or its result never arrived.
    ReadFailed,
}

pub open spec fn finish_spec(stdout: PipeState, stderr: Option<PipeState>) -> RunResult {
    match stdout {
        PipeState::Complete => match stderr {
            Some(PipeState::TooLarge) => RunResult::OutputLimitExceeded,
            Some(PipeState::Failed) => RunResult::ReadFailed,
            _ => RunResult::Completed,
        },
        PipeState::TooLarge => RunResult::OutputLimitExceeded,
        _ => RunResult::ReadFailed,
    }
}

/// The outcome of a finished run from what its pipes delivered.
pub fn finish(stdout: PipeState, stderr: Option<PipeState>) -> (r: RunResult)
    ensures
        r == finish_spec(stdout, stderr),
{
    match stdout {
        PipeState::Complete => match stderr {
            Some(PipeState::TooLarge) => RunResult::OutputLimitExceeded,
            Some(PipeState::Failed) => RunResult::ReadFailed,
            _ => RunResult::Completed,
        },
        PipeState::TooLarge => RunResult::OutputLimitExceeded,
        _ => RunResult::ReadFailed,
    }
}

/// A run never finishes while output is still arriving, and never reports
/// completion with a pipe over the limit.
pub proof fn law_finished_runs_are_drained(stdout: PipeState, stderr: Option<PipeState>, child: ChildState, deadline_passed: bool)
    ensures
        poll_spec(stdout, stderr, child, deadline_passed) == PollStep::Finished ==> drained(stdout, stderr)
            && child == ChildState::Exited,
        poll_spec(stdout, stderr, child, deadline_passed) == PollStep::Finished ==> finish_spec(stdout, stderr)
            != RunResult::OutputLimitExceeded,
        deadline_passed ==> poll_spec(stdout, stderr, child, deadline_passed) != PollStep::Sleep,
{
}

} // verus!
