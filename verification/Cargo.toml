[package]
name = "zk_prover"
version = "0.1.0"
edition = "2021"
publish = false

[dependencies]
rand_xorshift = "0.3"
rand_core = "0.6"
serde = { version = "1", features = ["derive"] }
serde_json = "1"
