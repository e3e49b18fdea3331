[package]
name = "portaldoctor"
version = "0.1.0"
edition = "2021"
publish = false

[dependencies]
clap = { version = "4", features = ["derive"] }
serde = { version = "1", features = ["derive"] }
serde_json = "1"
thiserror = "2"
tokio = { version = "1", features = ["rt", "time", "macros", "signal"] }
zbus = "5"
futures-lite = "2"
getrandom = "0.3"
libc = "0.2"
tracing = "0.1"
tracing-subscriber = "0.3"
