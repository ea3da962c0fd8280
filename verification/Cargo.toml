[package]
name = "sqldb_postgres"
version = "0.1.0"
edition = "2021"
publish = false

[dependencies]
anyhow = "1"
deadpool = "=0.13.1"
deadpool-postgres = "=0.14.2"
futures = "0.3"
rustls = { version = "=0.23.46", default-features = false, features = ["ring", "std", "logging", "tls12"] }
tokio = { version = "1", features = ["sync", "rt", "macros"] }
tokio-postgres = "=0.7.18"
tokio-postgres-rustls = "=0.13.0"
tracing = "0.1"
ulid = "=1.2.1"
wasmcloud-provider-sdk = { version = "0.8", default-features = false }
