[package]
name = "file_cipher"
version = "0.1.0"
edition = "2021"
publish = false

[dependencies]
fernet = { version = "=0.2.2", default-features = false, features = ["rustcrypto", "fernet_danger_timestamps"] }
clap = { version = "=4.6.7", features = ["derive"] }
