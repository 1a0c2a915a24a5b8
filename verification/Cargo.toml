[package]
name = "stark_link_core"
version = "0.1.0"
edition = "2021"
publish = false

[dependencies]
uuid = { version = "1", features = ["v4", "serde"] }
x25519-dalek = { version = "2", features = ["static_secrets"] }
aes-gcm = "0.10"
sha2 = "0.10"
rand = "0.8"
lz4_flex = "0.11"
chrono = { version = "0.4", features = ["serde"] }
hostname = "0.4"
serde = { version = "1", features = ["derive"] }
serde_json = "1"
rmp-serde = "1"
tokio = { version = "1", features = ["full"] }
tokio-tungstenite = "0.21"
futures-util = "0.3"
mdns-sd = "0.10"
thiserror = "1"
tracing = "0.1"
