[package]
name = "vorstand_auth"
version = "0.1.0"
edition = "2021"
publish = false

[dependencies]
base64 = "=0.23.1"
serde_json = "=1.0.151"
keyring = { version = "=3.6.3", default-features = false }
