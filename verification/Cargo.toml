[package]
name = "rings_node"
version = "0.1.0"
edition = "2021"
publish = false

[dependencies]
libsecp256k1 = "*"
base64 = "*"
bs58 = "*"
web3 = { version = "*", default-features = false, features = ["signing"] }
tiny-keccak = { version = "*", features = ["keccak"] }
uuid = { version = "*", features = ["v4"] }
serde = { version = "*", features = ["derive"] }
serde_json = "*"

[dev-dependencies]
rand = "0.8"
