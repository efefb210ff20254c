[package]
name = "kudos_import"
version = "0.1.0"
edition = "2021"
publish = false

[dependencies]
chrono = "=0.4.45"
lambda_http = "=1.3.1"
octocrab = "=0.41.2"
serde = { version = "=1.0.229", features = ["derive"] }
serde_json = "=1.0.151"
sqlx = { version = "=0.9.0", default-features = false, features = ["chrono", "postgres", "runtime-tokio"] }
tokio = { version = "=1.53.2", features = ["macros", "rt-multi-thread"] }
