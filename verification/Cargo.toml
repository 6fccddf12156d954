[package]
name = "wikis"
version = "0.1.0"
edition = "2021"
publish = false

[dependencies]
percent-encoding = "*"
serde = "*"
serde_json = "*"
reqwest = { version = "*", default-features = false, features = ["blocking", "gzip"] }
clap = { version = "*", features = ["derive"] }
webbrowser = "*"
