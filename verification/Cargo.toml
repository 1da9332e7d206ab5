[package]
name = "rovs"
version = "0.1.0"
edition = "2021"
publish = false

[dependencies]
uuid = { version = "1", features = ["v4", "serde"] }
serde = { version = "1", features = ["derive"] }
serde_json = "1"
thiserror = "*"
tokio = { version = "1", features = ["net", "io-util"] }
tokio-rustls = { version = "0.26", default-features = false }
bytes = "1"
