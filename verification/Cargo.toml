[package]
name = "moonraker"
version = "0.1.0"
edition = "2021"
publish = false

[dependencies]
mlua = { version = "=0.12.2", features = ["lua54", "vendored", "send"] }
tiktoken-rs = "=0.12.1"
serde_json = "=1.0.151"
rig-core = { version = "=0.43.0", features = ["reqwest"] }
tokio = { version = "=1.53.2", features = ["rt", "rt-multi-thread", "macros"] }
serde = { version = "=1.0.229", features = ["derive"] }
clap = { version = "=4.6.7", features = ["derive"] }
colored = "=3.1.1"
lopdf = "=0.45.0"
tracing = "=0.1.44"
tracing-subscriber = "=0.3.23"
