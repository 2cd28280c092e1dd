[package]
name = "bcplayer"
version = "0.1.0"
edition = "2021"
publish = false

[dependencies]
regex = "=1.13.1"
serde = { version = "=1.0.229", features = ["derive"] }
serde_json = "=1.0.154"
ureq = "=2.12.1"
toml = "=0.8.23"
anyhow = "=1.0.104"
bass-sys = "=2.3.0"
base64 = "=0.22.1"
scraper = "*"
crossterm = "*"
webbrowser = "*"
copypasta = { version = "*", default-features = false, features = ["x11"] }
