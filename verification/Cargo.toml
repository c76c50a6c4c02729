[package]
name = "deffy_bot"
version = "0.1.0"
edition = "2021"
publish = false

[dependencies]
rbase64 = "2"
hmac = "0.12"
md-5 = "0.10"
serenity = "0.12"
tokio = { version = "1", features = ["macros", "rt-multi-thread", "sync", "time"] }
anyhow = "1"
serde = { version = "1", features = ["derive"] }
serde_json = "1"

[dev-dependencies]
hex = "0.4"
