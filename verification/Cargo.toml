[package]
name = "wechatpay"
version = "0.1.0"
edition = "2021"
publish = false

[dependencies]
rsa = "=0.9.10"
sha2 = { version = "=0.10.9", features = ["oid"] }
sha1 = "=0.10.7"
aes-gcm = "=0.10.3"
base64 = "=0.22.1"
rand = "=0.8.8"
serde = { version = "=1.0.229", features = ["derive"] }
serde_json = "=1.0.151"
anyhow = "=1.0.104"
async-trait = "=0.1.92"
http = "=1.5.0"
bytes = "=1.12.1"
reqwest = { version = "=0.12.28", default-features = false, features = ["json", "multipart"] }
