[package]
name = "serve"
version = "0.1.0"
edition = "2021"
publish = false

[dependencies]
async-graphql = { version = "=7.2.1", features = ["chrono", "uuid", "tracing"] }
async-trait = "=0.1.92"
base64 = "=0.22.1"
chrono = { version = "=0.4.45", features = ["serde"] }
futures-util = "=0.3.34"
serde = { version = "=1.0.229", features = ["derive"] }
tokio = { version = "=1.54.1", features = ["sync", "rt", "macros"] }
tokio-stream = { version = "=0.1.19", features = ["sync"] }
totp-rs = { version = "=5.7.2", features = ["otpauth", "gen_secret"] }
tracing = "=0.1.44"
uuid = { version = "=1.29.0", features = ["v4", "serde"] }
