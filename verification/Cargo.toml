[package]
name = "auto_gippity"
version = "0.1.0"
edition = "2021"
publish = false

[dependencies]
reqwest = { version = "*", default-features = false, features = ["blocking", "json", "rustls-tls"] }
dotenv = "*"
serde = { version = "*", features = ["derive"] }
serde_json = "*"
