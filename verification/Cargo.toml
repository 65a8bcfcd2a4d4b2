[package]
name = "kodem_auth"
version = "0.1.0"
edition = "2021"
publish = false

[dependencies]
base64 = "0.13"
jsonwebtoken = "9"
serde_json = "1"
reqwest = { version = "0.12", default-features = false, features = ["rustls-tls"] }
tokio = { version = "1", features = ["rt-multi-thread", "macros", "sync"] }

[dev-dependencies]
rsa = { version = "0.9", features = ["pem"] }
rand = "0.8"
