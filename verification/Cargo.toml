[package]
name = "table_orders"
version = "0.1.0"
edition = "2021"
publish = false

[dependencies]
axum = "0.7"
chrono = { version = "0.4", features = ["serde"] }
dotenv = "0.15"
rand = "0.8"
serde = { version = "1", features = ["derive"] }
serde_json = "1"
sqlx = { version = "0.8", default-features = false, features = ["mysql", "runtime-tokio", "chrono"] }
tokio = { version = "1", features = ["macros", "rt-multi-thread", "net"] }
