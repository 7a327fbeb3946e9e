[package]
name = "clipsync"
version = "0.1.0"
edition = "2021"
publish = false

[dependencies]
anyhow = "1"
arboard = "3"
base64 = "0.22"
futures-util = "0.3"
hostname = "0.4"
image = { version = "0.25", default-features = false, features = ["png"] }
log = "0.4"
parking_lot = "0.12"
rustls = { version = "0.23", default-features = false, features = ["ring", "std", "tls12"] }
serde = { version = "1", features = ["derive"] }
serde_json = "1"
socket2 = { version = "0.5", features = ["all"] }
tokio = { version = "1", features = ["full"] }
tokio-tungstenite = { version = "0.26", features = ["rustls-tls-webpki-roots"] }
tokio-util = "0.7"
toml = "0.8"
url = "2"
uuid = { version = "1", features = ["v4"] }
