[package]
name = "virtualizationservice"
version = "0.1.0"
edition = "2021"
publish = false

[dependencies]
openssl = "0.10"
vsock = "*"
zip = "*"
serde = { version = "1", features = ["derive"] }
serde_json = "1"
log = "0.4"
anyhow = "1"
