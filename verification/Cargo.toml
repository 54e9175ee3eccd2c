[package]
name = "agos"
version = "0.1.0"
edition = "2021"
publish = false

[dependencies]
unicode-normalization = "*"
serde = { version = "1", features = ["derive"] }
serde_json = "1"
thiserror = "*"
tokio = { version = "1", features = ["macros", "rt-multi-thread", "net"] }
axum = "*"
tower-http = { version = "*", features = ["cors"] }
tracing = "*"
tracing-subscriber = { version = "*", features = ["env-filter", "json"] }
