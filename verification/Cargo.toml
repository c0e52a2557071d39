[package]
name = "rustls-cng-crypto"
version = "0.1.0"
edition = "2021"
publish = false

[dependencies]
rustls = { version = "=0.23.46", default-features = false, features = ["std", "tls12"] }
pkcs1 = "=0.7.5"
once_cell = "=1.21.4"
windows = { version = "=0.58.0", features = ["Win32_Foundation", "Win32_Security_Cryptography"] }
