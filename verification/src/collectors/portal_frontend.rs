//! Frontend version evidence: which commands are asked, in which order,
//! and how each answer becomes a section. The frontend's own `--version`
//! is preferred; package metadata is the fallback.
use vstd::prelude::*;
use crate::model::portal_frontend::{
    frontend_version_spec, package_version_spec, parse_frontend_version_output, parse_package_version_output,
    PortalFrontendInfo, VersionEvidenceSource, PORTAL_FRONTEND_COMPONENT,
};
use crate::model::section::Section;
use crate::model::status::CollectorState;

verus! {

/// Byte limit on a version query's output (4 KiB).
pub const MAX_VERSION_OUTPUT_BYTES: usize = 4096;

/// The frontend executables tried, in order: the `PATH` first, then the
/// standard installed locations.
pub fn frontend_executable_candidates() -> (r: Vec<&'static str>)
    ensures
        r@.len() == 3,
        r@[0]@ == "xdg-desktop-portal"@,
        r@[1]@ == "/usr/libexec/xdg-desktop-portal"@,
        r@[2]@ == "/usr/lib/xdg-desktop-portal"@,
{
    vec!["xdg-desktop-portal", "/usr/libexec/xdg-desktop-portal", "/usr/lib/xdg-desktop-portal"]
}

/// The package metadata command of the fallback.
pub const PACKAGE_QUERY_PROGRAM: &'static str = "dpkg-query";

/// Which kind of version query a command is.
#[derive(Debug, Clone, Copy, PartialEq, Eq, Structural)]
pub enum VersionCommand {
    FrontendExecutable,
    DpkgQuery,
}

/// The arguments of a version query.
pub fn version_arguments(kind: VersionCommand) -> (r: Vec<&'static str>)
    ensures
        kind == VersionCommand::FrontendExecutable ==> r@.len() == 1 && r@[0]@ == "--version"@,
        kind == VersionCommand::DpkgQuery ==> r@.len() == 3 && r@[0]@ == "-W"@ && r@[1]@ == "-f=${Version}\n"@
            && r@[2]@ == PORTAL_FRONTEND_COMPONENT@,
{
    match kind {
        VersionCommand::FrontendExecutable => vec!["--version"],
        VersionCommand::DpkgQuery => vec!["-W", "-f=${Version}\n", PORTAL_FRONTEND_COMPONENT],
    }
}

/// How a bounded version query ended.
#[derive(Debug, Clone, PartialEq, Eq)]
pub enum VersionRun {
    /// The program does not exist.
    NotFound,
    /// The program exists but could not be started.
    SpawnFailed,
    TimedOut,
    OutputLimitExceeded,
    /// The program exited; `stdout` is its output when it is UTF-8.
    Exited { success: bool, stdout: Option<String> },
}

/// The parsed version for a query of this kind.
pub open spec fn parsed_version(kind: VersionCommand, raw: Seq<char>) -> Option<(Seq<char>, crate::model::portal_frontend::SemanticVersion)> {
    match kind {
        VersionCommand::FrontendExecutable => frontend_version_spec(raw),
        VersionCommand::DpkgQuery => package_version_spec(raw),
    }
}

/// The collection status and note of a failed query (`None` when the query
/// produced comparable evidence).
pub open spec fn version_failure(kind: VersionCommand, run: VersionRun) -> Option<(CollectorState, Seq<char>)> {
    match run {
        VersionRun::NotFound => Some((CollectorState::Unsupported, match kind {
            VersionCommand::FrontendExecutable => "frontend version executable is unavailable"@,
            VersionCommand::DpkgQuery => "supported package metadata command is unavailable"@,
        })),
        VersionRun::SpawnFailed => Some((CollectorState::Unavailable, "frontend version command could not be started"@)),
        VersionRun::TimedOut => Some((CollectorState::TimedOut, "frontend version query timed out"@)),
        VersionRun::OutputLimitExceeded => Some((CollectorState::Unavailable, "frontend version output exceeded the bounded limit"@)),
        VersionRun::Exited { success, stdout } => if !success {
            Some((CollectorState::Unavailable, "frontend version query exited unsuccessfully"@))
        } else {
            match stdout {
                None => Some((CollectorState::ParseError, "frontend version output was not UTF-8"@)),
                Some(text) => match parsed_version(kind, text@) {
                    None => Some((CollectorState::ParseError, "frontend version output was not comparable"@)),
                    Some(_) => None,
                },
            }
        },
    }
}

/// The section for one version query of `program`.
pub fn version_section(program: &str, kind: VersionCommand, run: VersionRun) -> (s: Section<PortalFrontendInfo>)
    ensures
        match version_failure(kind, run) {
            Some((status, note)) => s.failed_with(status, note),
            None => {
                &&& s.status == CollectorState::Available
                &&& s.errors@.len() == 0
                &&& run matches VersionRun::Exited { stdout: Some(text), .. }
                &&& parsed_version(kind, text@) matches Some((raw, version))
                &&& s.value matches Some(info) && info.component@ == PORTAL_FRONTEND_COMPONENT@
                    && info.raw_version@ == raw && info.normalized_version == version
                    && info.source == match kind {
                        VersionCommand::FrontendExecutable => VersionEvidenceSource::FrontendExecutable { command: info.source->command },
                        VersionCommand::DpkgQuery => VersionEvidenceSource::DpkgQuery { package: info.source->package },
                    }
                    && match info.source {
                        VersionEvidenceSource::FrontendExecutable { command } => command@ == program@,
                        VersionEvidenceSource::DpkgQuery { package } => package@ == PORTAL_FRONTEND_COMPONENT@,
                    }
            },
        },
{
    match run {
        VersionRun::NotFound => Section::unsupported(match kind {
            VersionCommand::FrontendExecutable => "frontend version executable is unavailable",
            VersionCommand::DpkgQuery => "supported package metadata command is unavailable",
        }),
        VersionRun::SpawnFailed => Section::unavailable("frontend version command could not be started"),
        VersionRun::TimedOut => Section::timed_out("frontend version query timed out"),
        VersionRun::OutputLimitExceeded => Section::unavailable("frontend version output exceeded the bounded limit"),
        VersionRun::Exited { success, stdout } => {
            if !success {
                return Section::unavailable("frontend version query exited unsuccessfully");
            }
            let text = match stdout {
                None => return Section::parse_error("frontend version output was not UTF-8"),
                Some(t) => t,
            };
            let parsed = match kind {
                VersionCommand::FrontendExecutable => parse_frontend_version_output(text.as_str()),
                VersionCommand::DpkgQuery => parse_package_version_output(text.as_str()),
            };
            let (raw, version) = match parsed {
                None => return Section::parse_error("frontend version output was not comparable"),
                Some(p) => p,
            };
            let source = match kind {
                VersionCommand::FrontendExecutable => VersionEvidenceSource::FrontendExecutable { command: program.to_owned() },
                VersionCommand::DpkgQuery => VersionEvidenceSource::DpkgQuery { package: PORTAL_FRONTEND_COMPONENT.to_owned() },
            };
            Section::available(PortalFrontendInfo::new(raw.as_str(), version, source))
        },
    }
}

/// Whether the next candidate is asked: only when this one does not exist.
pub fn try_next_candidate(section: &Section<PortalFrontendInfo>) -> (r: bool)
    ensures
        r == (section.status == CollectorState::Unsupported),
{
    section.status == CollectorState::Unsupported
}

} // verus!
