[package]
name = "blog_api"
version = "0.1.0"
edition = "2021"
publish = false

[dependencies]
slug = "0.1"
uuid = { version = "1", features = ["v4", "serde"] }
bcrypt = "*"
jsonwebtoken = "9"
serde = { version = "1", features = ["derive"] }
serde_json = { version = "1", features = ["raw_value"] }
chrono = { version = "0.4", features = ["serde"] }
axum = "0.8"
tokio = { version = "1", features = ["macros", "rt-multi-thread", "net"] }
sqlx = { version = "0.8", default-features = false, features = ["runtime-tokio", "postgres", "uuid", "chrono", "macros"] }
dotenvy = "0.15"
async-trait = "0.1"
