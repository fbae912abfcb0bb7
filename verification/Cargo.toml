[package]
name = "asciinema-scenario"
version = "0.1.0"
edition = "2021"
publish = false

[dependencies]
asciicast = "=0.2.2"
failure = "=0.1.8"
html-escape = "=0.2.15"
serde = { version = "=1.0.229", features = ["derive"] }
serde_json = "=1.0.154"
simplelog = "=0.12.2"
structopt = "=0.3.26"
structopt-flags = "=0.3.6"
svg = "=0.13.1"
