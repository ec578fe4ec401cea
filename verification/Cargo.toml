[package]
name = "triton_cli"
version = "0.1.0"
edition = "2021"
publish = false

[dependencies]
triton-vm = "*"
serde_json = "*"
clap = { version = "*", features = ["derive"] }
fs-err = "*"
human-panic = "*"
anyhow = "*"
strum = "=0.27.2"
