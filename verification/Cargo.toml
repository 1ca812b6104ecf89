[package]
name = "crm_core"
version = "0.1.0"
edition = "2021"
publish = false

[dependencies]
chacha20poly1305 = "0.10"
hmac = "0.12"
sha2 = "0.10"
rand = "0.9"
argon2 = "0.5"
base64 = "0.22"
actix-web = "4"
actix-cors = "0.7"
anyhow = "1"
chrono = { version = "0.4", features = ["serde"] }
dotenvy = "0.15"
env_logger = "0.11"
jsonwebtoken = "9"
redis = { version = "*", default-features = false }
serde = { version = "1", features = ["derive"] }
sqlx = { version = "0.8", default-features = false, features = ["postgres", "runtime-tokio", "uuid", "chrono", "migrate"] }
uuid = { version = "1", features = ["v4", "serde"] }
