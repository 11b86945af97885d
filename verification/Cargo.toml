[package]
name = "bus_tracker"
version = "0.1.0"
edition = "2021"
publish = false

[dependencies]
dotenvy = "0.15"
iced = { version = "0.12", default-features = false }
maxminddb = "0.24"
public-ip = { version = "0.2", default-features = false, features = ["tokio-http-resolver"] }
reqwest = { version = "0.11", default-features = false, features = ["json", "rustls-tls"] }
serde = { version = "1", features = ["derive"] }
tokio = { version = "1", features = ["rt-multi-thread"] }
