[package]
name = "zkp_service"
version = "0.1.0"
edition = "2021"
publish = false

[dependencies]
axum = "0.7"
chrono = "0.4"
reqwest = { version = "0.12", default-features = false, features = ["json", "rustls-tls"] }
secp256k1 = { version = "0.29", features = ["rand", "hashes"] }
serde = { version = "1", features = ["derive"] }
serde_json = "1"
thiserror = "1"
tokio = { version = "1", features = ["full"] }
tower-http = { version = "0.5", features = ["cors"] }
uuid = { version = "1", features = ["v4"] }
