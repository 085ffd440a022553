[package]
name = "apple-native-keyring-store"
version = "0.2.0"
edition = "2021"
publish = false

[dependencies]
keyring-core = "*"
security-framework = "*"
