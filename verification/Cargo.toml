[package]
name = "hello_service"
version = "0.1.0"
edition = "2021"
publish = false

[dependencies]
axum = "*"
serde = { version = "*", features = ["derive"] }
tokio = { version = "*", features = ["rt-multi-thread", "net", "macros"] }

[dev-dependencies]
serde_json = "*"
