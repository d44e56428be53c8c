[package]
name = "gelato"
version = "0.1.0"
edition = "2021"
publish = false

[dependencies]
iced = { version = "0.3", features = ["tokio"] }
iced_native = "0.4"
iced_futures = "0.3"
irc = "0.15"
futures = "0.3"
serde = { version = "1", features = ["derive"] }
serde_json = "1"
anyhow = "1"
failure = "0.1"
