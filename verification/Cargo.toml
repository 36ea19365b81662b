[package]
name = "brioschenbot"
version = "0.1.0"
edition = "2021"
publish = false

[dependencies]
regex = "=1.13.1"
rand = "=0.8.8"
telegram-bot = "=0.8.0"
mysql = "=28.0.4"
ts3-query = "=0.3.2"
reqwest = { version = "0.10", default-features = false }
tokio = { version = "0.2", features = ["macros", "rt-threaded"] }
futures = "=0.3.34"
