//! Passive diagnostics for the XDG desktop portal stack: the normalized
//! snapshot model, the collectors' parsers, portal route resolution, the
//! diagnostic rules and the report renderers.
pub mod text;
pub mod json;
pub mod collectors;
pub mod model;
pub mod resolver;
pub mod rules;
pub mod remediation;
pub mod report;
pub mod compatibility;
pub mod diagnostics;
pub mod probes;
