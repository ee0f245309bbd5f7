[package]
name = "floatctf_awd"
version = "0.1.0"
edition = "2021"
publish = false

[dependencies]
sha2 = "0.10"
hex = "0.4"
hkdf = "0.12"
hmac = "0.12"
uuid = "1"
rand = "0.8"
serde_json = "1"
chrono = "0.4"
ipnetwork = "0.20"
