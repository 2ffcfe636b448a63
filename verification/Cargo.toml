[package]
name = "uploader"
version = "0.1.0"
edition = "2021"
publish = false

[dependencies]
anyhow = "=1.0.104"
dotenvy = "=0.15.7"
env_logger = { version = "=0.10.2", default-features = false }
log = "=0.4.35"
reqwest = { version = "=0.11.27", features = ["json", "gzip", "brotli"] }
serde = { version = "=1.0.229", features = ["derive"] }
takecell = "=0.1.1"
teloxide = "=0.12.2"
tokio = { version = "=1.54.1", features = ["macros", "rt-multi-thread", "fs", "process", "time", "sync"] }
url = "=2.5.8"
uuid = { version = "=1.29.0", features = ["v4"] }
