[package]
name = "erp_ai"
version = "0.1.0"
edition = "2021"
publish = false

[dependencies]
argon2 = "0.5"
uuid = { version = "1", features = ["serde", "v4"] }
async-trait = "0.1"
axum = "0.8"
chrono = { version = "0.4", features = ["serde"] }
deadpool-redis = "*"
dotenvy = "0.15"
jsonwebtoken = "9"
once_cell = "1"
reqwest = { version = "0.12", default-features = false, features = ["json", "rustls-tls"] }
serde = { version = "1", features = ["derive"] }
serde_json = "1"
sqlx = { version = "0.8", default-features = false, features = ["runtime-tokio", "postgres", "uuid", "chrono", "json", "macros"] }
tokio = { version = "1", features = ["full"] }
tracing = "0.1"
tracing-subscriber = { version = "0.3", features = ["env-filter"] }
