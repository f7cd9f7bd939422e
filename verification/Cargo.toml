[package]
name = "ghosttype"
version = "0.1.0"
edition = "2021"
publish = false

[dependencies]
audiopus = "*"
tokio = { version = "*", features = ["rt", "rt-multi-thread", "sync", "time", "macros", "net"] }
tokio-tungstenite = "*"
futures-util = "*"
serde = { version = "*", features = ["derive"] }
serde_json = "*"
reqwest = { version = "*", default-features = false, features = ["json"] }
anyhow = "*"
crossbeam-channel = "*"
async-trait = "*"
