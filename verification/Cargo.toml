[package]
name = "gateway_security"
version = "0.1.0"
edition = "2021"
publish = false

[dependencies]
anyhow = "*"
base64 = "=0.21.7"
clap = { version = "4", features = ["derive"] }
helium-crypto = "=0.8.4"
rand = "0.8"
serde = { version = "*", features = ["derive"] }
serde_json = "*"
thiserror = "*"
