[package]
name = "salad"
version = "0.1.0"
edition = "2021"
publish = false

[dependencies]
libsecp256k1 = "*"
tiny-keccak = { version = "*", features = ["keccak"] }
ring = "*"
rustc-hex = "*"
