[package]
name = "binance_klines"
version = "0.1.0"
edition = "2021"
publish = false

[dependencies]
chrono = "*"
serde_qs = "*"
serde = { version = "*", features = ["derive"] }
serde_json = "*"
reqwest = { version = "*", default-features = false, features = ["blocking", "json"] }
csv = "*"
clap = { version = "*", features = ["derive"] }
indicatif = "*"
