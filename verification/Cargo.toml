[package]
name = "subtitles"
version = "0.1.0"
edition = "2021"
publish = false

[dependencies]
amqprs = "2"
anyhow = "1"
async-trait = "0.1"
aws-config = { version = "1", default-features = false }
aws-sdk-s3 = "1"
axum = { version = "0.8", features = ["multipart", "macros"] }
chrono = "0.4"
diesel = { version = "2", features = ["postgres", "r2d2", "chrono"] }
hound = "3"
r2d2 = "0.8"
serde = { version = "1", features = ["derive"] }
tempfile = "3"
tokio = { version = "1", features = ["full"] }
tower-http = { version = "0.6", features = ["limit", "trace"] }
tracing = "0.1"
tracing-subscriber = { version = "0.3", features = ["env-filter"] }
uuid = { version = "1", features = ["v4"] }
whisper-rs = "*"
