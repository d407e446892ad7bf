[package]
name = "templater"
version = "0.1.0"
edition = "2021"
publish = false

[dependencies]
anyhow = "1"
clap = { version = "4", features = ["derive"] }
crossterm = "0.27"
dialoguer = "0.11"
handlebars = "4"
ignore = "0.4"
ratatui = "0.23"
serde_json = "1"
toml = "0.8"
