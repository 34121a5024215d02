[package]
name = "next_dev"
version = "0.1.0"
edition = "2021"
publish = false

[dependencies]
indexmap = "*"
anyhow = "*"
tokio = { version = "*", features = ["rt", "macros", "time", "sync"] }
futures = "*"
owo-colors = "*"
webbrowser = "*"
dunce = "*"
