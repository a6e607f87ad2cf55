[package]
name = "ergo_chain_sync"
version = "0.1.0"
edition = "2021"
publish = false

[dependencies]
base16 = "*"
base64 = "*"
serde = { version = "*", features = ["derive"] }
serde_json = "*"
serde_yaml = "*"
serde_cbor = "*"
clap = { version = "*", features = ["derive"] }
kafka = { version = "*", default-features = false }
