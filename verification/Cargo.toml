[package]
name = "model_bridge"
version = "0.1.0"
edition = "2021"
publish = false

[dependencies]
axum = "0.7"
once_cell = "1"
reqwest = { version = "0.12", default-features = false, features = ["json"] }
serde = { version = "1", features = ["derive"] }
serde_json = "1"
tokio = { version = "1", features = ["macros", "net", "rt-multi-thread", "time"] }
tower-http = { version = "0.5", features = ["cors"] }
