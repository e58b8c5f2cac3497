[package]
name = "reliquary_archiver"
version = "0.1.0"
edition = "2021"
publish = false

[dependencies]
base64 = "=0.22.1"
serde = { version = "=1.0.229", features = ["derive"] }
serde_json = "=1.0.154"
serde_with = "=3.24.0"
chrono = "=0.4.45"
clap = { version = "=4.6.7", features = ["derive"] }
pcaparse = "=0.2.0"
