[package]
name = "suiperchat_core"
version = "0.1.0"
edition = "2021"
publish = false

[dependencies]
futures-channel = "*"
uuid = { version = "*", features = ["v4"] }
chrono = "*"
serde_json = "*"
serde = { version = "*", features = ["derive"] }
tokio = { version = "*", features = ["full"] }
tokio-tungstenite = "*"
futures-util = "*"
sqlx = { version = "*", default-features = false, features = ["runtime-tokio", "sqlite", "chrono"] }
reqwest = { version = "*", default-features = false, features = ["json", "rustls-tls"] }
stun-client = "*"
