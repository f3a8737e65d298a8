[package]
name = "keypairer"
version = "0.1.0"
edition = "2021"
publish = false

[dependencies]
base64 = "0.22"
pqcrypto = "*"
pqcrypto-traits = "*"
serde_json = "1"
zeroize = "1"
