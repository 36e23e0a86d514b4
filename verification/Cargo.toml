[package]
name = "music_w"
version = "0.1.0"
edition = "2021"
publish = false

[dependencies]
aes = "=0.8.4"
cbc = "=0.1.2"
base64 = "=0.22.1"
hex = "=0.4.3"
rand = "=0.8.8"
rsa = "=0.9.10"
serde = { version = "=1.0.229", features = ["derive"] }
serde_json = "=1.0.154"
reqwest = { version = "=0.12.28", default-features = false, features = ["rustls-tls"] }
anyhow = "1"
