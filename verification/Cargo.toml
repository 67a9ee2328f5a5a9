[package]
name = "scraping_wrapper"
version = "0.1.0"
edition = "2021"
publish = false

[dependencies]
serde_json = "=1.0.151"
headless_chrome = "=0.9.0"
reqwest = { version = "=0.12.28", default-features = false, features = ["blocking"] }
toml = "=0.8.23"
