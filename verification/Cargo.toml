[package]
name = "gdou_net_login"
version = "0.1.0"
edition = "2021"
publish = false

[dependencies]
anyhow = "1"
base64 = "0.22"
directories = "5"
encoding_rs = "0.8"
futures = "0.3"
hmac = "0.12"
keyring = "3"
md-5 = "0.10"
reqwest = { version = "0.12", default-features = false }
serde = { version = "1", features = ["derive"] }
serde_json = "1"
sha1 = "0.10"
tempfile = "3"
tokio = { version = "1", features = ["rt-multi-thread", "macros", "time"] }
