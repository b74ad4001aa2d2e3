[package]
name = "thsr_ticket"
version = "0.1.0"
edition = "2021"
publish = false

[dependencies]
scraper = "*"
reqwest = { version = "*", default-features = false, features = ["blocking", "cookies", "rustls-tls"] }
clap = { version = "*", features = ["derive"] }
chrono = "*"
chrono-tz = "*"
serde = { version = "*", features = ["derive"] }
serde_json = "*"
serde_repr = "*"
strum = { version = "*", features = ["derive"] }
opener = "*"
env_logger = "*"
log = "*"
