//! One deterministic diagnostic result.
use vstd::prelude::*;
use crate::model::evidence::Evidence;

verus! {

/// Impact severity of a finding.
#[derive(Debug, Clone, Copy, PartialEq, Eq, Structural)]
pub enum Severity {
    Info,
    Warning,
    Error,
    Critical,
}

impl Severity {
    pub open spec fn label_spec(self) -> Seq<char> {
        match self {
            Severity::Info => "INFO"@,
            Severity::Warning => "WARNING"@,
            Severity::Error => "ERROR"@,
            Severity::Critical => "CRITICAL"@,
        }
    }

    /// Stable uppercase label.
    pub fn as_str(self) -> (r: &'static str)
        ensures
            r@ == self.label_spec(),
    {
        match self {
            Severity::Info => "INFO",
            Severity::Warning => "WARNING",
            Severity::Error => "ERROR",
            Severity::Critical => "CRITICAL",
        }
    }

    pub fn to_string(self) -> (r: String)
        ensures
            r@ == self.label_spec(),
    {
        self.as_str().to_owned()
    }
}

/// How strongly collected evidence supports a finding.
#[derive(Debug, Clone, Copy, PartialEq, Eq, Structural)]
pub enum Confidence {
    Low,
    Medium,
    High,
}

impl Confidence {
    pub open spec fn label_spec(self) -> Seq<char> {
        match self {
            Confidence::Low => "LOW"@,
            Confidence::Medium => "MEDIUM"@,
            Confidence::High => "HIGH"@,
        }
    }

    /// Stable uppercase label.
    pub fn as_str(self) -> (r: &'static str)
        ensures
            r@ == self.label_spec(),
    {
        match self {
            Confidence::Low => "LOW",
            Confidence::Medium => "MEDIUM",
            Confidence::High => "HIGH",
        }
    }

    pub fn to_string(self) -> (r: String)
        ensures
            r@ == self.label_spec(),
    {
        self.as_str().to_owned()
    }
}

/// One deterministic diagnostic result.
#[derive(Debug, Clone, PartialEq, Eq)]
pub struct Finding {
    /// Stable rule identifier, e.g. `ENV001`.
    pub id: String,
    pub severity: Severity,
    pub confidence: Confidence,
    /// Short human title.
    pub title: String,
    /// One-paragraph summary.
    pub summary: String,
    /// Detailed explanation of the finding.
    pub explanation: String,
    /// Structured evidence backing the finding.
    pub evidence: Vec<Evidence>,
    /// Consequence when the finding applies; absent when not applicable.
    pub impact: Option<String>,
    /// Suggested next steps, in order.
    pub recommendation: Vec<String>,
    /// Collector/rule subsystem that produced this finding.
    pub source_component: String,
}

} // verus!
