//! The normalized data model shared by collectors, rules and renderers.
pub mod dbus;
pub mod environment;
pub mod evidence;
pub mod finding;
pub mod journal;
pub mod pipewire;
pub mod portal;
pub mod portal_frontend;
pub mod probe;
pub mod section;
pub mod service;
pub mod snapshot;
pub mod status;
