[package]
name = "polymarket_helpers"
version = "0.1.0"
edition = "2021"
publish = false

[dependencies]
alloy-primitives = "1"
anyhow = "1"
axum = { version = "0.7", default-features = false, features = ["json"] }
dotenvy = "0.15"
futures = "0.3"
rust_decimal = "1"
serde = { version = "1", features = ["derive"] }
serde_json = "1"
tokio = { version = "1", features = ["macros", "rt-multi-thread"] }
tracing = "0.1"
tracing-subscriber = { version = "0.3", features = ["env-filter"] }
