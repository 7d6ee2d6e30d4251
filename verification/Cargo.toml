[package]
name = "srvcs-conevolume"
version = "0.1.0"
edition = "2021"
publish = false

[dependencies]
axum = "=0.8.9"
serde = { version = "=1.0.229", features = ["derive"] }
serde_json = "=1.0.154"
utoipa = "=5.5.0"
reqwest = { version = "=0.12.28", default-features = false, features = ["json"] }
