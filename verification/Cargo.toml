[package]
name = "ffxiv_versions"
version = "0.1.0"
edition = "2021"
publish = false

[dependencies]
chrono = { version = "0.4", default-features = false, features = ["std", "clock"] }
url = "2"
regex = "1"
scraper = "*"
serde = { version = "1", features = ["derive"] }
serde_json = "1"
csv = "1"
tokio = { version = "1", features = ["fs", "io-util", "rt-multi-thread", "macros", "sync"] }
reqwest = { version = "*", default-features = false, features = ["json"] }
clap = { version = "4", features = ["derive"] }
anyhow = "1"
env_logger = "*"
graphql_client = { version = "*", default-features = false }
