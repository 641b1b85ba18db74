[package]
name = "oxidian"
version = "0.1.0"
edition = "2021"
publish = false

[dependencies]
base64 = "0.22"
aes-gcm = "0.10"
dashmap = "6"
serde = { version = "1", features = ["derive"] }
serde_json = "1"
tokio = { version = "1", features = ["full"] }
tokio-tungstenite = { version = "0.26", features = ["rustls-tls-webpki-roots"] }
futures-util = "0.3"
reqwest = { version = "0.12", default-features = false, features = ["json", "rustls-tls"] }
tracing = "0.1"
tracing-subscriber = { version = "0.3", features = ["env-filter"] }
rustls = { version = "0.23", default-features = false, features = ["ring", "std"] }
audiopus = "0.3.0-rc.0"
async-trait = "0.1"
thiserror = "2"
