[package]
name = "meeting_detector"
version = "0.1.0"
edition = "2021"
publish = false

[dependencies]
chrono = "0.4"
sysinfo = "0.32"
serde = { version = "1", features = ["derive"] }
serde_json = "1"
dirs = "5"
log = "0.4"
tokio = { version = "1", features = ["sync", "time", "rt"] }
