[package]
name = "stock_ingest"
version = "0.1.0"
edition = "2021"
publish = false

[dependencies]
encoding_rs = "*"
tokio = { version = "*", features = ["full"] }
reqwest = { version = "*", default-features = false }
chrono = "*"
serde = { version = "*", features = ["derive"] }
serde_json = "*"
anyhow = "*"

[dev-dependencies]
csv = "*"
regex = "*"
scraper = "*"
