[package]
name = "pqc_algo"
version = "0.1.0"
edition = "2021"
publish = false

[dependencies]
aes-gcm = "0.10"
hex = "0.4"
oqs = "*"
rand = "0.8"
rand_chacha = "0.3"
serde = { version = "1", features = ["derive"] }
sha2 = "0.10"
thiserror = "1"
