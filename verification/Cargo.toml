[package]
name = "zero2prod"
version = "0.1.0"
edition = "2021"
publish = false

[dependencies]
actix-web = "4"
chrono = { version = "0.4", default-features = false, features = ["clock"] }
config = { version = "*", default-features = false, features = ["yaml"] }
log = "0.4"
reqwest = { version = "*", default-features = false, features = ["json", "rustls-tls"] }
serde = { version = "1", features = ["derive"] }
serde-aux = "*"
serde_json = "1"
sqlx = { version = "*", default-features = false, features = ["runtime-tokio", "tls-rustls", "postgres", "uuid", "chrono", "migrate"] }
tracing = "0.1"
tracing-actix-web = "*"
tracing-bunyan-formatter = "*"
tracing-log = "*"
tracing-subscriber = { version = "*", features = ["registry", "env-filter"] }
unicode-segmentation = "1"
uuid = { version = "1", features = ["v4"] }
validator = "*"
