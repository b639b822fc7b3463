[package]
name = "ptimer"
version = "0.1.0"
edition = "2021"
publish = false

[dependencies]
chrono = "0.4"
humantime = "2"
clap = { version = "4", features = ["derive", "env"] }
tokio = { version = "1", features = ["full"] }
tokio-stream = { version = "0.1", features = ["net"] }
tonic = "0.12"
prost = "0.13"
hyper-util = { version = "0.1", features = ["tokio"] }
tower = { version = "0.4", features = ["util"] }
rusqlite = { version = "0.32", features = ["bundled", "chrono"] }
daemonize = "0.5"
anyhow = "1"
