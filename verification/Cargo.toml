[package]
name = "zeroclaw"
version = "0.1.0"
edition = "2021"
publish = false

[dependencies]
hmac = "0.12"
sha2 = "0.10"
hex = "0.4"
anyhow = "1"
thiserror = "1"
serde = { version = "1", features = ["derive"] }
serde_json = "1"
tokio = { version = "1", features = ["full"] }
redis = { version = "0.27", features = ["tokio-comp", "connection-manager"] }
reqwest = { version = "0.12", default-features = false, features = ["json", "rustls-tls"] }
chrono = "0.4"
clap = { version = "4", features = ["derive"] }
toml = "0.8"
tracing = "0.1"
tracing-subscriber = "0.3"
async-trait = "0.1"
futures-util = "0.3"
tokio-stream = "0.1"
tokio-tungstenite = { version = "0.23", features = ["rustls-tls-webpki-roots"] }
rusqlite = { version = "0.32", features = ["bundled"] }
schemars = "0.8"
polars = { version = "0.46", default-features = false, features = ["lazy"] }
