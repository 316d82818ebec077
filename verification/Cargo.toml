[package]
name = "bitcoin_da_client"
version = "0.1.0"
edition = "2021"
publish = false

[dependencies]
hex = "0.4"
serde_json = "1"
serde = { version = "1", features = ["derive"] }
reqwest = { version = "0.12", default-features = false, features = ["json", "rustls-tls"] }
tokio = { version = "1", features = ["macros", "rt-multi-thread", "time"] }
tracing = "0.1"
tracing-subscriber = "0.3"
async-trait = "0.1"
