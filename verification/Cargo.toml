[package]
name = "geocache"
version = "0.1.0"
edition = "2021"
publish = false

[dependencies]
lru = "*"
maxminddb = "*"
serde = { version = "*", features = ["derive"] }
serde_json = "*"
axum = "*"
tokio = { version = "*", features = ["macros", "rt-multi-thread", "net"] }
flate2 = "*"
tar = "*"
reqwest = { version = "*", default-features = false, features = ["rustls-tls", "blocking"] }
