[package]
name = "cryptvault"
version = "0.1.0"
edition = "2021"
publish = false

[dependencies]
aes-gcm = "0.10"
argon2 = "0.5"
rand = "0.8"
base64 = "0.22"
