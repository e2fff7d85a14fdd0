[package]
name = "liga_muertos_back"
version = "0.1.0"
edition = "2021"
publish = false

[dependencies]
serde = { version = "1", features = ["derive"] }
serde_json = "1"
log = "0.4"
env_logger = "0.11"
dotenvy = "0.15"
thiserror = "2"
chrono = { version = "0.4", features = ["serde"] }
actix-web = "4"
