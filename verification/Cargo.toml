[package]
name = "openchat_core"
version = "0.1.0"
edition = "2021"
publish = false

[dependencies]
uuid = "=1.29.0"
sha2 = "=0.10.9"
regex = "=1.13.1"
chrono = { version = "=0.4.45", default-features = false, features = ["std"] }
base64 = "=0.21.7"
mime_guess = "2"
