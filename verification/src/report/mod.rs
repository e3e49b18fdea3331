//! Reports: the run output, its privacy boundary and its renderers.
use vstd::prelude::*;
use crate::model::finding::Finding;
use crate::model::snapshot::{Snapshot, PUBLIC_JSON_SCHEMA_VERSION};

pub mod markdown;
pub mod portal;
pub mod redact;
pub mod terminal;
pub mod walk;

verus! {

/// Top-level run output.
#[derive(Debug, Clone, PartialEq, Eq)]
pub struct Report {
    /// Top-level JSON schema version.
    pub schema_version: u32,
    /// `portaldoctor` version that produced this report.
    pub portaldoctor_version: String,
    /// Normalized diagnostic snapshot.
    pub snapshot: Snapshot,
    /// Deterministic findings of this run.
    pub findings: Vec<Finding>,
}

impl Report {
    /// Build a report carrying the current schema version.
    pub fn new(snapshot: Snapshot, findings: Vec<Finding>, portaldoctor_version: String) -> (r: Self)
        ensures
            r.schema_version == PUBLIC_JSON_SCHEMA_VERSION,
            r.portaldoctor_version == portaldoctor_version,
            r.snapshot == snapshot,
            r.findings == findings,
    {
        Report { schema_version: PUBLIC_JSON_SCHEMA_VERSION, portaldoctor_version, snapshot, findings }
    }
}

/// Renders a finished report into its final textual form. The `verbose`
/// flag controls the level of collected detail.
pub trait Renderer {
    /// Render `report` into text ready for stdout.
    fn render(&self, report: &Report, verbose: bool) -> String;
}

} // verus!
