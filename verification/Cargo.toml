[package]
name = "pda-proxy"
version = "0.1.0"
edition = "2021"
publish = false

[dependencies]
sha2 = "=0.10.9"
chacha20 = "=0.9.1"
rand = "=0.9.5"
hex = "=0.4.3"
tower = { version = "=0.5.3", features = ["retry", "util"] }
tokio = { version = "=1.54.1", features = ["full"] }
serde = { version = "=1.0.229", features = ["derive"] }
serde_json = "=1.0.154"
bincode = "=1.3.3"
sled = "=0.34.7"
log = "=0.4.35"
env_logger = "=0.11.11"
anyhow = "=1.0.104"
thiserror = "=2.0.21"
hyper = { version = "=1.12.0", features = ["full"] }
http-body-util = "=0.1.5"
hyper-util = { version = "=0.1.21", features = ["full"] }
rustls = { version = "0.23", default-features = false, features = ["ring", "std", "tls12", "logging"] }
tokio-rustls = { version = "0.26", default-features = false, features = ["ring", "tls12", "logging"] }
hyper-rustls = { version = "0.27", default-features = false, features = ["ring", "native-tokio", "http1", "tls12", "logging"] }
rustls-pemfile = "2"
celestia-types = "*"
jsonrpsee = { version = "*", features = ["server", "macros", "http-client"] }
