[package]
name = "rust_frp"
version = "0.1.0"
edition = "2021"
publish = false

[dependencies]
ring = "=0.17.14"
base64 = "=0.13.1"
rand = "=0.8.8"
urlencoding = "=2.1.3"
serde = { version = "1", features = ["derive"] }
serde_json = "=1.0.154"
serde_yaml = "0.9"
toml = "0.8"
glob = "0.3"
hostname = "0.3"
log = "0.4"
env_logger = "0.10"
notify = "6"
async-trait = "0.1"
axum = "0.7"
futures-util = "0.3"
tokio = { version = "1", features = ["full"] }
tokio-rustls = "0.25"
tokio-tungstenite = { version = "0.21", features = ["rustls-tls-webpki-roots"] }
tokio-util = { version = "0.7", features = ["compat"] }
rustls-pemfile = "2"
webpki-roots = "0.26"
kcp = "=0.5.3"
yamux = "=0.13.10"
thiserror = "1"
tracing = "0.1"
tracing-subscriber = { version = "0.3", features = ["env-filter"] }
