[package]
name = "newsletter"
version = "0.1.0"
edition = "2021"
publish = false

[dependencies]
anyhow = "1"
axum = { version = "0.8", default-features = false, features = ["form", "http1", "json", "query", "tokio"] }
chrono = { version = "0.4", default-features = false, features = ["clock"] }
clap = { version = "4", features = ["derive"] }
config = { version = "*", default-features = false, features = ["toml"] }
once_cell = "1"
rand = "0.9"
reqwest = { version = "0.12", default-features = false, features = ["json"] }
secrecy = { version = "*", features = ["serde"] }
serde = { version = "1", features = ["derive"] }
serde-aux = "*"
sqlx = { version = "0.8", default-features = false, features = ["chrono", "migrate", "postgres", "runtime-tokio", "uuid"] }
thiserror = "1"
tokio = { version = "1", features = ["macros", "net", "rt-multi-thread"] }
tower = "0.5"
tower-http = { version = "0.6", features = ["request-id", "sensitive-headers", "trace", "util"] }
tracing = "0.1"
tracing-appender = "0.2"
tracing-subscriber = { version = "0.3", features = ["env-filter"] }
unicode-segmentation = "1"
uuid = { version = "1", features = ["v4"] }
validator = "*"
