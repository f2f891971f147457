[package]
name = "ctranslate2_server"
version = "0.1.0"
edition = "2021"
publish = false

[dependencies]
anyhow = "1"
axum = "*"
clap = { version = "4", features = ["derive", "env"] }
config = "*"
ct2rs = "*"
serde = { version = "1", features = ["derive"] }
serde_json = "1"
snafu = "*"
tokio = { version = "1", features = ["full"] }
tracing = "0.1"
tracing-subscriber = { version = "*", features = ["env-filter"] }
