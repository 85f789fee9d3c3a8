[package]
name = "wh2pg"
version = "0.1.0"
edition = "2021"
publish = false

[dependencies]
actix-web = { version = "4", default-features = false, features = ["macros"] }
actix-web-opentelemetry = "0.17"
chrono = { version = "0.4", features = ["serde"] }
dotenv = "0.15"
lazy_static = "1"
opentelemetry = "0.22"
opentelemetry-prometheus = "0.15"
opentelemetry_sdk = "0.22"
prometheus = "0.13"
serde = { version = "1", features = ["derive"] }
serde_json = "1"
sqlx = { version = "0.7", default-features = false, features = ["runtime-tokio", "postgres", "json", "chrono", "macros"] }
tracing = "0.1"
tracing-opentelemetry = "0.23"
tracing-subscriber = { version = "0.3", features = ["env-filter", "json"] }
