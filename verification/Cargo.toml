[package]
name = "bsky_viewer"
version = "0.1.0"
edition = "2021"
publish = false

[dependencies]
anyhow = "*"
async-trait = "*"
atrium-api = "*"
atrium-xrpc = "*"
atrium-xrpc-client = "*"
chrono = "*"
colored = "*"
http = "*"
jwt = "*"
lazy_static = "*"
regex = "*"
rustyline = "*"
serde_json = "*"
tokio = { version = "*", features = ["macros", "rt-multi-thread"] }
