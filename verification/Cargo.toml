[package]
name = "bma_jrpc"
version = "0.1.0"
edition = "2021"
publish = false

[dependencies]
serde = { version = "1", features = ["derive"] }
serde_json = "1"
rmp-serde = "1"
http = "0.2"
isahc = "1.7"
futures-lite = "1"
