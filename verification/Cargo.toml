[package]
name = "netatmo_api"
version = "0.1.0"
edition = "2021"
publish = false

[dependencies]
reqwest = { version = "=0.13.5", default-features = false, features = ["blocking", "form"] }
serde = { version = "=1.0.229", features = ["derive"] }
serde_json = "=1.0.151"

[dev-dependencies]
mockito = "=1.7.2"
