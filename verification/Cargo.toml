[package]
name = "bank_transfer"
version = "0.1.0"
edition = "2021"
publish = false

[dependencies]
rust_decimal = "1"
uuid = { version = "1", features = ["v4", "serde"] }
anyhow = "1"
async-trait = "0.1"
axum = "0.7"
dotenv = "0.15"
serde = { version = "1", features = ["derive"] }
sqlx = { version = "0.8", default-features = false, features = ["runtime-tokio", "postgres", "uuid", "rust_decimal", "derive"] }
tokio = { version = "1", features = ["full"] }
tracing-subscriber = "0.3"
