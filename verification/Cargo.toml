[package]
name = "eludris_bridge"
version = "0.1.0"
edition = "2021"
publish = false

[dependencies]
redis = { version = "*", features = ["aio", "tokio-comp"] }
tokio = { version = "*", features = ["rt-multi-thread", "macros", "sync"] }
futures = "*"
log = "*"
eludrs = "*"
