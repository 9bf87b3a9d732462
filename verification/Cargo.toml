[package]
name = "peer_record"
version = "0.1.0"
edition = "2021"
publish = false

[dependencies]
parking_lot = "=0.12.5"
snarkos-node-tcp = "=4.12.0"

[dev-dependencies]
tokio = { version = "=1.54.1", features = ["rt-multi-thread"] }
