[package]
name = "mux"
version = "0.1.0"
edition = "2021"
publish = false

[dependencies]
anyhow = "1"
parking_lot = "*"
portable-pty = "*"
serde = { version = "1", features = ["derive"] }
termwiz = "*"
url = "2"
zellij-utils = "*"
