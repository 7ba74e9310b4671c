[package]
name = "rune"
version = "0.1.0"
edition = "2021"
publish = false

[dependencies]
anyhow = "1"
genco = "0.15"
serde = { version = "1", features = ["derive"] }
serde_yaml = "0.8"
