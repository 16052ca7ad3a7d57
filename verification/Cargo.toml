[package]
name = "cat_database_server"
version = "1.0.0"
edition = "2021"
publish = false

[dependencies]
anyhow = "1"
rmcp = { version = "0.3", features = ["server", "transport-io"] }
serde_json = { version = "1", features = ["preserve_order"] }
tokio = { version = "1", features = ["macros", "rt-multi-thread", "io-std"] }
tracing = "0.1"
tracing-subscriber = { version = "0.3", features = ["env-filter"] }
