[package]
name = "autotranslate"
version = "0.1.0"
edition = "2021"
publish = false

[dependencies]
dashmap = "5"
anyhow = "1"
serenity = "0.12"
poise = "0.6"
tokio = { version = "1", features = ["macros", "rt-multi-thread", "time", "sync"] }
deepl = "*"
secrecy = "0.8"
figment = { version = "0.10", features = ["env", "toml"] }
serde = { version = "1", features = ["derive"] }
tracing = "0.1"
tracing-subscriber = { version = "0.3", features = ["env-filter"] }
