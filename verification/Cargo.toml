[package]
name = "fred"
version = "0.1.0"
edition = "2021"
publish = false

[dependencies]
chrono = "0.4"
humantime = "2"
rand = "0.8"
poise = "0.5"
sqlx = { version = "0.6", features = ["runtime-tokio-rustls", "sqlite", "chrono"] }
tokio = { version = "1", features = ["macros", "rt-multi-thread"] }
reqwest = { version = "0.11", default-features = false, features = ["json", "rustls-tls"] }
serde = { version = "1", features = ["derive"] }
log = "0.4"
env_logger = "0.10"
anyhow = "1"
