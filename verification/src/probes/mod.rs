//! Explicit, bounded active probes of portal interfaces: the decisions of
//! their request lifecycles and the rendering of their results.
pub mod portal;
pub mod filechooser;
pub mod screenshot;
pub mod screencast;
