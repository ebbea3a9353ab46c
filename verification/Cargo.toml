[package]
name = "lv2_smoketest"
version = "0.1.0"
edition = "2021"
publish = false

[dependencies]
anyhow = "*"
clap = { version = "*", features = ["derive"] }
lilv = "*"
serde = { version = "*", features = ["derive"] }
serde_json = "*"
