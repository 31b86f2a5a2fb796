[package]
name = "enclava"
version = "0.1.0"
edition = "2021"
publish = false

[dependencies]
alloy = { version = "*", default-features = false, features = ["providers", "transport-http", "sol-types", "rpc-types", "reqwest"] }
dashmap = "*"
serde = { version = "*", features = ["derive"] }
serde_json = "*"
tokio = { version = "*", features = ["macros", "rt-multi-thread", "time"] }
dotenvy = "*"
csv = "*"
