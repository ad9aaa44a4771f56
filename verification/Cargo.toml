[package]
name = "scrape_core"
version = "0.1.0"
edition = "2021"
publish = false

[dependencies]
duration-str = "*"
clap = { version = "*", features = ["derive"] }
env_logger = "*"
log = "*"
reqwest = { version = "*", default-features = false, features = ["blocking"] }
serde = { version = "*", features = ["derive"] }
serde_yaml = "*"
signal-hook = { version = "*", features = ["iterator"] }
thiserror = "*"
