[package]
name = "country_rpc"
version = "0.1.0"
edition = "2021"
publish = false

[dependencies]
serde_json = "*"
lapin = "*"
tokio = { version = "*", features = ["macros", "rt-multi-thread"] }
futures = "*"
dotenvy = "*"
tracing = "*"
tracing-subscriber = { version = "*", features = ["env-filter"] }
chrono = "*"
