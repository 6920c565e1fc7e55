[package]
name = "eliaschaosfractal"
version = "0.1.0"
edition = "2021"
publish = false

[dependencies]
sha2 = "0.10"
base64 = "0.13"
rand = "0.8"
chrono = "0.4"
serde = { version = "1", features = ["derive"] }
serde_json = "1"
tokio = { version = "1", features = ["full"] }
redis = "*"
rusqlite = { version = "*", features = ["bundled"] }
image = "*"
rayon = "*"
