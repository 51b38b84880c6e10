[package]
name = "rusty_fridge"
version = "0.1.0"
edition = "2021"
publish = false

[dependencies]
actix = "0.13"
actix-broker = "0.4"
clap = { version = "3", features = ["derive"] }
mqtt-async-client = "0.3"
pid = "3"
rustls = "0.19"
serde = { version = "1", features = ["derive"] }
serde_json = "1"
tokio = { version = "1", features = ["full"] }
tracing = "0.1"
tracing-subscriber = "0.3"
webpki-roots = "0.21"
