[package]
name = "media_identity"
version = "0.1.0"
edition = "2021"
publish = false

[dependencies]
async-trait = "0.1"
fantoccini = { version = "*", default-features = false, features = ["rustls-tls"] }
reqwest = { version = "0.12", default-features = false, features = ["json", "rustls-tls"] }
serde = { version = "1", features = ["derive"] }
serde_json = "1"
tokio = { version = "1", features = ["rt-multi-thread", "time"] }
validator = "*"
