[package]
name = "shortlink"
version = "0.1.0"
edition = "2021"
publish = false

[dependencies]
rand = "0.8"
actix-web = { version = "*", default-features = false, features = ["macros"] }
actix-cors = "*"
serde = { version = "*", features = ["derive"] }
sqlx = { version = "*", default-features = false, features = ["sqlite", "runtime-tokio"] }
dotenv = "*"
env_logger = "*"
