[package]
name = "endpoint"
version = "0.1.0"
edition = "2021"
publish = false

[dependencies]
reqwest = { version = "0.11", default-features = false, features = ["blocking"] }
serde_json = "1"
serde = { version = "1", features = ["derive"] }
axum = "0.6"
tokio = { version = "1", features = ["rt-multi-thread", "macros"] }

[dev-dependencies]
httpmock = "0.7"
