[package]
name = "stasis_bot"
version = "0.1.0"
edition = "2021"
publish = false

[dependencies]
rand = "=0.9.5"
serde = { version = "=1.0.229", features = ["derive"] }
serde_json = "=1.0.154"
uuid = { version = "=1.29.0", features = ["serde"] }
clap = { version = "=4.6.7", features = ["derive"] }
chrono = { version = "=0.4.45", features = ["serde"] }
anyhow = "1"
parking_lot = "0.12"
tokio = { version = "1", features = ["rt", "macros", "time", "sync"] }
futures-util = { version = "0.3", features = ["sink"] }
tokio-tungstenite = "*"
reqwest = { version = "0.12", default-features = false, features = ["json", "rustls-tls"] }
