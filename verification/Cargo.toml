[package]
name = "waterui_cli"
version = "0.1.0"
edition = "2021"
publish = false

[dependencies]
heck = "0.5"
semver = "1"
pathdiff = "0.2"
clap = { version = "4", features = ["derive"] }
serde = { version = "1", features = ["derive"] }
serde_json = "1"
color-eyre = "0.6"
toml = "0.8"
