[package]
name = "haveno_basic_bootstrap"
version = "0.1.0"
edition = "2021"
publish = false

[dependencies]
anyhow = "1"
async-trait = "0.1"
base64 = "0.22"
bytes = "1"
chrono = "0.4"
data-encoding = "2"
ed25519-dalek = "1"
hex = "0.4"
k256 = "0.13"
prost = { version = "0.13", default-features = false, features = ["std"] }
rand = "0.7"
reqwest = { version = "0.12", default-features = false, features = ["json"] }
serde = { version = "1", features = ["derive"] }
serde_json = "1"
sha2 = "0.10"
sha3 = "0.10"
tokio = { version = "1", features = ["full"] }
tokio-socks = "0.5"
uuid = { version = "1", features = ["v4"] }
