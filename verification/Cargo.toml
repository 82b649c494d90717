[package]
name = "rifme"
version = "0.1.0"
edition = "2021"
publish = false

[dependencies]
scraper = "*"
reqwest = { version = "*", default-features = false }
async-std = { version = "*", features = ["attributes"] }
futures = "*"
clap = { version = "*", features = ["derive"] }
