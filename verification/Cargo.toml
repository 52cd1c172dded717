[package]
name = "magnus"
version = "0.1.0"
edition = "2021"
publish = false

[dependencies]
alloy-primitives = "1"
quick-xml = "0.36"
flate2 = "1"
serde = { version = "1", features = ["derive"] }
serde_json = "1"
toml = "0.8"
eyre = "0.6"
tokio = { version = "1", features = ["rt-multi-thread", "macros", "net", "time"] }
axum = { version = "0.7", features = ["ws"] }
tower-http = { version = "0.5", features = ["cors"] }
reqwest = { version = "0.12", default-features = false, features = ["json", "multipart"] }
rusqlite = { version = "0.31", features = ["bundled"] }
chrono = "0.4"
tracing = "0.1"
tracing-subscriber = { version = "0.3", features = ["env-filter"] }
