[package]
name = "presale_settlement"
version = "0.1.0"
edition = "2021"
publish = false

[dependencies]
rand = "=0.8.8"
spl-token = "*"
serde = { version = "1", features = ["derive"] }
serde_json = "1"
chrono = "0.4"
anyhow = "1"
dotenv = "0.15"
env_logger = "0.11"
sqlx = { version = "0.8", default-features = false, features = ["runtime-tokio", "postgres", "macros", "chrono", "uuid", "rust_decimal"] }
tokio = { version = "1", features = ["rt-multi-thread", "macros"] }
uuid = { version = "1", features = ["v4"] }
rust_decimal = "1"
