[package]
name = "kit_ilias_downloader"
version = "0.1.0"
edition = "2021"
publish = false

[dependencies]
url = "=2.5.8"
ignore = "=0.4.33"
tokio = { version = "=1.53.2", features = ["rt-multi-thread", "macros", "sync", "time", "fs", "io-util"] }
reqwest = { version = "=0.13.5", default-features = false, features = ["cookies", "stream", "form", "http2"] }
scraper = "=0.27.0"
serde_json = "*"
regex = "*"
once_cell = "*"
h2 = "=0.4.20"
anyhow = "*"
