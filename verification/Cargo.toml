[package]
name = "meshchat"
version = "0.1.0"
edition = "2021"
publish = false

[dependencies]
anyhow = "1"
async-stream = "0.3"
emojis = "*"
futures = "0.3"
iced = { version = "0.13", default-features = false, features = ["tokio"] }
iced_futures = "0.13"
meshtastic = { version = "*", features = ["bluetooth-le"] }
serde = { version = "1", features = ["derive"] }
tokio = { version = "1", features = ["sync", "time"] }
tokio-stream = "0.1"
