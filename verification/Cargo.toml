[package]
name = "curupira"
version = "0.1.0"
edition = "2021"
publish = false

[dependencies]
anyhow = "=1.0.104"
axum = { version = "=0.7.9", features = ["multipart"] }
chrono = { version = "=0.4.45", features = ["serde"] }
cpal = "=0.15.3"
hound = "=3.5.1"
rand = "=0.8.8"
reqwest = { version = "=0.12.28", default-features = false, features = ["multipart", "json"] }
serde = { version = "=1.0.229", features = ["derive"] }
serde_json = "=1.0.154"
sqlx = { version = "=0.8.6", default-features = false, features = ["runtime-tokio", "sqlite", "chrono", "derive"] }
tokio = { version = "=1.54.1", features = ["macros", "rt-multi-thread", "net", "time"] }
tower-http = { version = "=0.5.2", features = ["cors"] }
tract-onnx = "=0.21.12"
kstring = "=2.0.0"
