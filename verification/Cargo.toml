[package]
name = "lauta"
version = "0.1.0"
edition = "2021"
publish = false

[dependencies]
regex = "1"
pbkdf2 = { version = "0.12", features = ["simple"] }
password-hash = "0.5"
sha2 = "0.10"
rand_core = { version = "0.6", features = ["getrandom"] }
rand = "0.9"
ammonia = "4"
chrono = "0.4"
serde = { version = "1", features = ["derive"] }
serde_json = "1"
tokio = { version = "1", features = ["rt", "sync", "macros", "time"] }
actix-web = { version = "4", default-features = false, features = ["macros"] }
actix-ws = "0.3"
futures-util = "0.3"
jsonwebtoken = "9"
log = "0.4"
env_logger = "0.11"
dotenvy = "0.15"
