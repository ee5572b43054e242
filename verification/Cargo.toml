[package]
name = "soundboard"
version = "0.1.0"
edition = "2021"
publish = false

[dependencies]
anyhow = "1"
async-trait = "0.1"
chrono = "0.4"
dotenv = "0.15"
env_logger = "0.9"
log = "0.4"
poise = "0.3"
serenity = "0.11"
songbird = "0.3"
sqlx = { version = "0.6", features = ["runtime-tokio-rustls", "postgres", "chrono"] }
tokio = { version = "1", features = ["full"] }
url = "2"
