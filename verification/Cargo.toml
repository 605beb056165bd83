[package]
name = "solana_tracker"
version = "0.1.0"
edition = "2021"
publish = false

[dependencies]
anyhow = "1"
bs58 = "=0.5.1"
chrono = { version = "=0.4.45", features = ["serde"] }
dotenvy = "0.15"
futures = "0.3"
lazy_static = "1"
prometheus = "0.13"
refinery = { version = "0.8", features = ["tokio-postgres"] }
rustls = "0.21"
serde = { version = "1", features = ["derive"] }
solana-sdk = "=5.0.0"
thiserror = "1"
tokio = { version = "1", features = ["full"] }
tokio-postgres = { version = "0.7", features = ["with-chrono-0_4"] }
tokio-postgres-rustls = "0.10"
tracing = "0.1"
tracing-subscriber = { version = "0.3", features = ["env-filter"] }
webpki-roots = "0.25"
