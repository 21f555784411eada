[package]
name = "user_accounts"
version = "0.1.0"
edition = "2021"
publish = false

[dependencies]
argon2 = { version = "0.5", features = ["std"] }
uuid = { version = "1", features = ["v4"] }
rocket = { version = "0.5", features = ["json"] }
rocket_db_pools = { version = "0.2", features = ["sqlx_postgres"] }
sqlx = { version = "0.7", default-features = false, features = ["postgres", "runtime-tokio"] }
serde = { version = "1", features = ["derive"] }
dotenv = "0.15"
env_logger = "0.11"
