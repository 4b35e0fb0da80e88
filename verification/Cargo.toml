[package]
name = "nck_daemon"
version = "0.1.0"
edition = "2021"
publish = false

[dependencies]
anyhow = "=1.0.104"
crc = "=3.4.0"
dashmap = "=6.2.1"
nix = { version = "=0.31.3", features = ["sched", "signal", "process", "user"] }
serde = { version = "=1.0.229", features = ["derive"] }
serde_json = "1"
tokio = { version = "=1.54.1", features = ["fs", "sync", "rt", "macros", "io-util"] }
tracing = "=0.1.44"
