[package]
name = "inscribememaybe"
version = "0.1.0"
edition = "2021"
publish = false

[dependencies]
alloy-chains = "0.1"
clap = { version = "4", features = ["derive"] }
eyre = "0.6"
futures = "0.3"
serde = { version = "1", features = ["derive"] }
serde_json = "1"
serde_with = "3"
sqlx = { version = "0.7", features = ["sqlite", "runtime-tokio", "migrate", "json"] }
strum = { version = "0.25", features = ["derive"] }
tokio = { version = "1", features = ["full"] }
tracing = "0.1"
tracing-subscriber = { version = "0.3", features = ["env-filter"] }
