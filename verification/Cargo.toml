[package]
name = "getlyrics"
version = "0.1.0"
edition = "2021"
publish = false

[dependencies]
anyhow = "1"
audiotags = "*"
dirs = "*"
env_logger = "*"
log = "0.4"
regex = "1"
reqwest = { version = "0.12", features = ["blocking", "json"] }
scraper = "*"
serde = { version = "1", features = ["derive"] }
sha2 = "0.10"
symphonia = { version = "0.5", features = ["mp3"] }
walkdir = "2"
