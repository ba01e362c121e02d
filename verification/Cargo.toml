[package]
name = "parking_area"
version = "0.1.0"
edition = "2021"
publish = false

[dependencies]
axum = "=0.8.9"
chrono = { version = "=0.4.45", features = ["serde"] }
serde = { version = "=1.0.229", features = ["derive"] }
sqlx = { version = "=0.9.0", features = ["runtime-tokio", "postgres", "uuid", "chrono"] }
tracing = "=0.1.44"
uuid = { version = "=1.27.0", features = ["serde", "v4"] }
