//! The diagnostic rules and the engine that evaluates them.
pub mod common;
pub mod compatibility;
pub mod dbus;
pub mod engine;
pub mod environment;
pub mod pipewire;
pub mod portal;
