//! The collectors' parsers and normalizers; the I/O that feeds them lives
//! in the application around this library.
pub mod activation_environment;
pub mod command;
pub mod dbus;
pub mod environment;
pub mod journal;
pub mod os_release;
pub mod pipewire;
pub mod portal_frontend;
pub mod portal_config;
pub mod portal_files;
pub mod systemd_user;
pub mod timeouts;
