[package]
name = "occ_sandbox"
version = "0.1.0"
edition = "2021"
publish = false

[dependencies]
anyhow = "1"
futures = "0.3"
rand = "*"
rand_chacha = "*"
serde_json = "1"
tokio = { version = "1", features = ["rt", "time"] }
tracing = "0.1"
