[package]
name = "brongnal"
version = "0.1.0"
edition = "2021"
publish = false

[dependencies]
blake2 = "=0.11.0"
chacha20poly1305 = "=0.11.0"
ed25519-dalek = "=3.0.0"
getrandom = "*"
x25519-dalek = "=3.0.0"
tokio = { version = "=1.53.2", features = ["sync"] }
