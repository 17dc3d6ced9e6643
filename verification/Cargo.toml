[package]
name = "c_kzg"
version = "0.1.0"
edition = "2021"
publish = false

[dependencies]
rust_eth_kzg = "=0.10.0"
ekzg-bls12-381 = "=0.10.0"
hex = "=0.4.3"
once_cell = "=1.21.4"
serde = { version = "=1.0.229", features = ["derive"] }
bytes = "=1.12.1"

[dev-dependencies]
rand = "=0.8.8"
