[package]
name = "scratchpad"
version = "0.1.0"
edition = "2021"
publish = false

[dependencies]
anyhow = "1"
serde = { version = "1", features = ["derive"] }
serde_json = "1"
shlex = "1"
toml = "0.8"
xdg = "2"
