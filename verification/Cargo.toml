[package]
name = "wardrobe-platform"
version = "0.1.0"
edition = "2021"
publish = false

[dependencies]
chacha20poly1305 = "0.10"
getrandom = "0.2"
hickory-resolver = "0.25"
hmac = "0.12"
image = { version = "0.25", default-features = false, features = ["png", "jpeg", "webp"] }
ipnet = "2"
reqwest = { version = "0.12", default-features = false, features = ["rustls-tls"] }
rusqlite = "*"
serde = { version = "1", features = ["derive"] }
serde_json = "1"
sha2 = "0.10"
time = { version = "0.3", features = ["formatting", "parsing"] }
tokio = { version = "1", features = ["rt", "time", "sync", "macros"] }
url = "2"
uuid = { version = "1", features = ["v4"] }
zeroize = "1"
