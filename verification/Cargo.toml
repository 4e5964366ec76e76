[package]
name = "rust_clip"
version = "0.1.0"
edition = "2021"
publish = false

[dependencies]
aes-gcm = "0.10"
anyhow = "1"
arboard = "3"
bip39 = "2"
chacha20poly1305 = "0.10"
chrono = "0.4"
clap = { version = "4", features = ["derive"] }
dashmap = "5"
directories = "5"
ed25519-dalek = "2"
flume = "0.11"
hex = "0.4"
hkdf = "0.12"
hmac = "0.12"
hostname = "0.4"
image = { version = "0.24", default-features = false, features = ["png"] }
machine-uid = "0.5"
mdns-sd = "0.11"
rand = "0.8"
serde = { version = "1", features = ["derive"] }
serde_json = "1"
sha2 = "0.10"
tokio = { version = "1", features = ["full"] }
uuid = "1"

[dev-dependencies]
bincode = "1"
