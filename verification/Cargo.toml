[package]
name = "saorsa-attestation-guest"
version = "0.1.0"
edition = "2021"
publish = false

[dependencies]
blake3 = "1"
saorsa-logic = "*"
serde = { version = "1", features = ["derive"] }
sp1-zkvm = "*"
