[package]
name = "nueces"
version = "0.1.0"
edition = "2021"
publish = false

[dependencies]
ring = "=0.17.14"
tokio = { version = "=1.53.2", features = ["rt-multi-thread", "macros", "sync", "time"] }
axum = "=0.8.9"
reqwest = { version = "=0.12.28", default-features = false, features = ["rustls-tls", "json"] }
serde = { version = "=1.0.229", features = ["derive"] }
serde_json = "=1.0.151"
zip = { version = "=8.6.0", default-features = false, features = ["deflate"] }
tempfile = "=3.27.0"
clap = { version = "=4.6.7", features = ["derive"] }
azure_identity = "=0.21.0"
azure_security_keyvault = "=0.21.0"

[dev-dependencies]
hex = "=0.4.3"
hmac = "=0.13.0"
sha2 = "=0.11.0"
