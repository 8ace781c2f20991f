[package]
name = "relayer"
version = "0.1.0"
edition = "2021"
publish = false

[dependencies]
async-trait = "0.1"
crossbeam = "0.8"
curve25519-dalek = "=2.1.3"
futures-util = "0.3"
hyper = { version = "0.14", features = ["full"] }
mpc-ristretto = "=0.1.0"
ring-channel = "=0.11.0"
streaming-stats = "=0.2.3"
tokio = { version = "1", features = ["full"] }
tokio-tungstenite = "0.18"
tungstenite = "0.18"
uuid = { version = "=1.29.0", features = ["v4"] }
