[package]
name = "rustls_client"
version = "0.1.0"
edition = "2021"
publish = false

[dependencies]
rustls = "=0.19.1"
rustls-pemfile = "=0.2.1"
webpki = "=0.21.4"
tokio = { version = "1", features = ["full"] }
tokio-rustls = "=0.22.0"
serde = { version = "1", features = ["derive"] }
serde_yaml = "0.9"
log = "0.4"
env_logger = "0.10"

[dev-dependencies]
rcgen = "0.8"
