[package]
name = "ml_cookie_cutter"
version = "0.1.0"
edition = "2021"
publish = false

[dependencies]
serde_yaml = "0.9"
clap = { version = "4", features = ["derive"] }
anyhow = "1.0"
