[package]
name = "plugin-cli"
version = "0.1.0"
edition = "2021"
publish = false

[dependencies]
anyhow = "=1.0.104"
clap = { version = "=4.6.7", features = ["derive"] }
flate2 = "=1.1.10"
glob = "=0.3.4"
home = "=0.5.12"
ignore = "=0.4.34"
inquire = "=0.7.5"
keyring = { version = "=2.3.3", default-features = false }
# Not used directly: pins the version that liquid-core pulls in, because
# kstring 2.0.5 needs rustc 1.96.
kstring = "=2.0.2"
liquid = "=0.26.11"
owo-colors = "=4.4.0"
reqwest = { version = "=0.12.28", default-features = false, features = ["blocking", "multipart", "json", "rustls-tls"] }
serde = { version = "=1.0.229", features = ["derive"] }
serde_json = "=1.0.154"
tar = "=0.4.46"
thiserror = "=1.0.69"
