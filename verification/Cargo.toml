[package]
name = "authlink"
version = "0.1.0"
edition = "2021"
publish = false

[dependencies]
serde = { version = "1", features = ["derive"] }
serde_json = "1"
tokio = { version = "1", features = ["rt-multi-thread", "macros", "sync"] }
rocket = "0.5"
sqlx = { version = "0.8", default-features = false, features = ["mysql", "runtime-tokio"] }
reqwest = { version = "0.12", default-features = false, features = ["rustls-tls"] }
