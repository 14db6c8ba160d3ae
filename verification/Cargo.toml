[package]
name = "akkorokamui"
version = "0.4.0"
edition = "2021"
publish = false

[dependencies]
base64 = "0.13"
hmac = "0.11"
log = "0.4"
percent-encoding = "2"
reqwest = { version = "0.11", default-features = false, features = ["blocking", "json", "rustls-tls"] }
serde = { version = "1", features = ["derive"] }
serde_json = "1"
sha2 = "0.9"
thiserror = "1"
