[package]
name = "fosstoon"
version = "0.1.0"
edition = "2021"
publish = false

[dependencies]
scraper = "*"
urlencoding = "*"
nanorand = "*"
reqwest = { version = "*", default-features = false }
tokio = { version = "*", default-features = false, features = ["rt-multi-thread", "macros", "fs", "sync"] }
futures = "*"
serde = { version = "*", features = ["derive"] }
serde_json = "*"
