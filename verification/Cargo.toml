[package]
name = "ocr_service"
version = "0.1.0"
edition = "2021"
publish = false

[dependencies]
actix-multipart = "=0.6.2"
actix-web = { version = "=4.18.1", default-features = false, features = ["macros"] }
axum = "=0.7.9"
axum-extra = { version = "=0.9.6", features = ["multipart"] }
env_logger = "=0.11.11"
futures = "=0.3.34"
image = "=0.25.10"
imageproc = "=0.27.0"
log = "=0.4.34"
oar-ocr = { version = "=0.10.1", default-features = false, features = ["simd"] }
serde = { version = "=1.0.229", features = ["derive"] }
serde_json = "=1.0.154"
tokio = { version = "=1.54.1", features = ["macros", "rt-multi-thread", "net"] }
