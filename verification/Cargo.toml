[package]
name = "ubl_id"
version = "0.3.0"
edition = "2021"
publish = false

[dependencies]
base64 = "0.22"
blake3 = "1"
bs58 = "0.5"
ed25519-dalek = { version = "2", features = ["rand_core"] }
rand = "0.8"
time = "0.3"
json_atomic = "*"
serde = { version = "1", features = ["derive"] }
serde_json = "1"
thiserror = "1"
ureq = { version = "2", default-features = false, features = ["json"] }
