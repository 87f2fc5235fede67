[package]
name = "azumaneo"
version = "0.1.0"
edition = "2021"
publish = false

[dependencies]
uuid = { version = "=1.27.0", features = ["v4", "serde"] }
rust-argon2 = "=3.0.0"
serde = { version = "*", features = ["derive"] }
serde_json = "*"
chrono = "*"
log = "*"
actix = "*"
actix-web = { version = "*", default-features = false, features = ["macros", "ws"] }
actix-web-actors = "*"
sqlx = { version = "*", default-features = false, features = ["runtime-tokio", "postgres", "chrono", "uuid"] }
toml = "*"
pretty_env_logger = "*"
