[package]
name = "registration"
version = "0.1.0"
edition = "2021"
publish = false

[dependencies]
bcrypt = "*"
chrono = "*"
anyhow = "*"
log = "*"
serde = { version = "*", features = ["derive"] }
tokio = { version = "*", features = ["full"] }
axum = "*"
sqlx = { version = "*", features = ["runtime-tokio", "postgres", "chrono"] }
