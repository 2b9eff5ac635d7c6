[package]
name = "ftp_rustified"
version = "0.1.0"
edition = "2021"
publish = false

[dependencies]
bytes = "0.4"
time = "0.3"
tokio = { version = "1", features = ["full"] }
tokio-io = "0.1"
serde = { version = "1", features = ["derive"] }
serde_json = "1"
dotenv = "0.15"
