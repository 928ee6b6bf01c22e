[package]
name = "filmtrack"
version = "0.1.0"
edition = "2021"
publish = false

[dependencies]
serde_json = "1"
scraper = "*"
regex = "1"
chrono = { version = "0.4", features = ["serde"] }
serde = { version = "1", features = ["derive"] }
anyhow = "1"
lazy_static = "1"
base64 = "*"
uuid = { version = "1", features = ["v4"] }
open = "*"
futures-util = "0.3"
tokio = { version = "1", features = ["time", "rt-multi-thread"] }
reqwest = { version = "0.12", default-features = false, features = ["stream", "json", "rustls-tls"] }
