[package]
name = "shadowlink-rust-core"
version = "0.2.3"
edition = "2021"
publish = false

[dependencies]
matrix-sdk = { version = "0.7", default-features = false, features = ["e2e-encryption", "sqlite", "bundled-sqlite", "rustls-tls"] }
ruma = { version = "0.9", features = ["events"] }
mime = "0.3"
serde = { version = "1", features = ["derive"] }
serde_json = "1"
thiserror = "1"
tokio = { version = "1", features = ["rt-multi-thread", "macros", "sync", "time"] }
tracing = "0.1"
