[package]
name = "paws"
version = "0.1.0"
edition = "2021"
publish = false

[dependencies]
console = "=0.16.6"
clap = { version = "=4.6.7", features = ["derive"] }
serde = { version = "=1.0.229", features = ["derive"] }
serde_json = "=1.0.154"
lazy-regex = "=3.6.2"
anyhow = "=1.0.104"
crossterm = "=0.29.0"
dirs = "=7.0.0"
rand = "=0.10.3"
colored = "*"
syntect = { version = "*", default-features = false, features = ["default-fancy"] }
tempfile = "*"
termimad = "*"
