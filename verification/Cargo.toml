[package]
name = "pjdfstest"
version = "0.1.0"
edition = "2021"
publish = false

[dependencies]
anyhow = "=1.0.104"
figment = { version = "=0.10.19", features = ["toml"] }
gumdrop = "=0.8.1"
inventory = "=0.3.25"
nix = { version = "=0.27.1", features = ["fs", "user", "socket", "feature"] }
paste = "1"
rand = "=0.8.8"
serde = { version = "=1.0.229", features = ["derive"] }
tempfile = "=3.27.0"
walkdir = "=2.5.0"
