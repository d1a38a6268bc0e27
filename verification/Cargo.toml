[package]
name = "trojan-r"
version = "0.1.0"
edition = "2021"
publish = false

[dependencies]
tokio-rustls = { version = "=0.26.6", default-features = false, features = ["ring", "tls12", "logging"] }
rustls = { version = "=0.23.46", default-features = false }
rustls-pki-types = { version = "=1.15.1", default-features = false }
rustls-pemfile = "=2.2.0"
webpki-roots = "=1.0.10"
tokio = { version = "=1.54.1", features = ["rt-multi-thread", "macros", "net", "io-util"] }
clap = { version = "=4.6.7", default-features = false, features = ["std", "help", "usage", "error-context"] }
env_logger = { version = "=0.11.11", default-features = false, features = ["auto-color"] }
log = "=0.4.35"
serde = { version = "=1.0.229", features = ["derive"] }
toml = "=1.1.8"
async-trait = "=0.1.92"
