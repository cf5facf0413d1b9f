[package]
name = "skinner"
version = "0.1.0"
edition = "2021"
publish = false

[dependencies]
minijinja = "*"
serde = { version = "*", features = ["derive"] }
toml = "*"
anyhow = "*"
crossterm = "*"
