[package]
name = "acter_core"
version = "0.1.0"
edition = "2021"
publish = false

[dependencies]
anyhow = "=1.0.104"
async-trait = "=0.1.92"
chrono = { version = "=0.4.45", default-features = false, features = ["std"] }
futures = "=0.3.34"
matrix-sdk-base = { version = "=0.10.0", default-features = false }
ruma-common = "=0.20.2"
ruma-events = { version = "=0.35.2", features = ["unstable-msc3245-v1-compat"] }
sanitize-filename-reader-friendly = "=2.3.1"
serde = { version = "=1.0.229", features = ["derive"] }
serde_json = "=1.0.154"
tokio = { version = "=1.54.1", features = ["sync", "rt", "time"] }
tokio-stream = { version = "=0.1.19", features = ["sync"] }
tracing = "=0.1.44"
urlencoding = "=2.1.3"
