[package]
name = "proton_sdk"
version = "0.1.0"
edition = "2021"
publish = false

[dependencies]
anyhow = "=1.0.104"
async-trait = "=0.1.92"
base64 = "=0.23.1"
dashmap = "=6.2.1"
futures = "=0.3.34"
http = "=1.5.0"
proton-crypto = { version = "=0.14.1", default-features = false, features = ["rustpgp"] }
semver = "=1.0.28"
tokio = { version = "=1.54.1", features = ["macros", "rt", "sync"] }
tokio-util = "=0.7.20"
