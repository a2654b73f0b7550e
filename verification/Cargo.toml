[package]
name = "marketplace"
version = "0.1.0"
edition = "2021"
publish = false

[dependencies]
anyhow = "1"
axum = { version = "*", default-features = false, features = ["form", "json"] }
bcrypt = "*"
chrono = { version = "0.4", default-features = false, features = ["serde"] }
http = "1"
serde = { version = "1", features = ["derive"] }
serde_json = "1"
sqlx = { version = "*", default-features = false, features = ["postgres", "runtime-tokio"] }
tower-sessions = "*"
tracing = "0.1"
uuid = { version = "1", features = ["v4"] }
