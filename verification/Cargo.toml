[package]
name = "employee_directory"
version = "0.1.0"
edition = "2021"
publish = false

[dependencies]
sea-orm = { version = "=1.1.20", default-features = false, features = ["macros", "sqlx-postgres", "runtime-tokio", "with-chrono"] }
dioxus = { version = "=0.6.3", features = ["fullstack", "router", "server"] }
dioxus-router = "=0.6.3"
serde = { version = "=1.0.229", features = ["derive"] }
dotenvy = "=0.15.7"
axum = "=0.7.9"
sqlx = { version = "=0.8.6", default-features = false, features = ["postgres", "runtime-tokio"] }
