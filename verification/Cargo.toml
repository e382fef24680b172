[package]
name = "happydiving_web"
version = "0.1.0"
edition = "2021"
publish = false

[dependencies]
rust_decimal = { version = "1", features = ["serde-with-str"] }
moka = { version = "0.12", features = ["sync"] }
chrono = { version = "0.4", features = ["serde"] }
uuid = { version = "1", features = ["serde", "v4"] }
serde = { version = "1", features = ["derive"] }
serde_json = "1"
sqlx = { version = "0.8", default-features = false, features = ["runtime-tokio", "postgres", "macros", "uuid", "chrono", "rust_decimal", "json"] }
tokio = { version = "1", features = ["rt-multi-thread", "macros", "time", "net", "sync"] }
axum = "0.7"
askama = "0.12"
thiserror = "1"
tracing = "0.1"
