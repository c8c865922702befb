[package]
name = "axioo_qc_client"
version = "0.1.0"
edition = "2021"
publish = false

[dependencies]
anyhow = "*"
chrono = "*"
crossterm = "*"
futures-util = "*"
libloading = "*"
once_cell = "*"
scopeguard = "*"
tokio = { version = "*", features = ["full"] }
tokio-tungstenite = "*"
