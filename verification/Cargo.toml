[package]
name = "rs_cli"
version = "0.1.0"
edition = "2021"
publish = false

[dependencies]
regex = "*"
serde_json = "*"
serde = { version = "*", features = ["derive"] }
anyhow = "*"
clap = { version = "*", features = ["derive"] }
indicatif = "*"
indicatif-log-bridge = "*"
simplelog = "*"
log = "*"
