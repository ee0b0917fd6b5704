[package]
name = "maity_core"
version = "0.1.0"
edition = "2021"
publish = false

[dependencies]
sysinfo = "*"
rand = "*"
chrono = "*"
serde = { version = "*", features = ["derive"] }
serde_json = "*"
tokio = { version = "*", features = ["rt", "sync", "time", "macros"] }
dirs = "*"
