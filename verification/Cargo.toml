[package]
name = "otp_frame"
version = "0.1.0"
edition = "2021"
publish = false

[dependencies]
argon2 = "0.5"
hmac = "0.12"
sha2 = "0.10"
rand = "0.8"
