[package]
name = "bsky_fanout"
version = "0.1.0"
edition = "2021"
publish = false

[dependencies]
anyhow = "=1.0.104"
ably = "=0.2.0"
atrium-api = "=0.25.8"
atrium-xrpc-client = "*"
dotenv = "=0.15.0"
serde_json = "=1.0.151"
tokio = { version = "=1.53.2", features = ["sync", "rt", "rt-multi-thread", "macros", "time"] }
tracing = "=0.1.44"
tracing-subscriber = "=0.3.23"
