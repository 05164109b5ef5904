[package]
name = "spa_host"
version = "0.1.0"
edition = "2021"
publish = false

[dependencies]
axum = "0.7"
http = "1"
serde_json = "1"
tokio = { version = "1", features = ["macros", "rt-multi-thread", "net"] }
tower-http = { version = "0.5", features = ["cors", "fs"] }
