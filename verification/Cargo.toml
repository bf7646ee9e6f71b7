[package]
name = "ynab_updater"
version = "0.1.0"
edition = "2021"
publish = false

[dependencies]
anyhow = "=1.0.104"
chrono = "=0.4.45"
config = "=0.15.27"
env_logger = "=0.11.11"
log = "=0.4.34"
pushover = "=0.4.0"
regex = "=1.13.1"
reqwest = { version = "=0.13.5", default-features = false, features = ["form", "json", "cookies"] }
scraper = "=0.27.0"
serde = { version = "=1.0.229", features = ["derive"] }
serde_json = "=1.0.151"
tokio = { version = "=1.53.2", features = ["macros", "rt-multi-thread"] }
