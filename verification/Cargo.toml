[package]
name = "rouxinold-autohalt"
version = "0.1.0"
edition = "2021"
publish = false

[dependencies]
dotenvy = "0.15"
mc-query = "*"
tokio = { version = "1", features = ["macros", "rt-multi-thread", "process", "time"] }
tracing = "0.1"
tracing-loki = "*"
tracing-subscriber = { version = "0.3", features = ["env-filter"] }
