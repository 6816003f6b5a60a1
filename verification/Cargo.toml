[package]
name = "antispam"
version = "0.1.0"
edition = "2021"
publish = false

[dependencies]
bayespam = "*"
serde = { version = "*", features = ["derive"] }
serde_json = "*"
rocket = { version = "*", features = ["json"] }
clap = "*"
