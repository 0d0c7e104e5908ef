[package]
name = "gcc_builder"
version = "0.1.0"
edition = "2021"
publish = false

[dependencies]
anyhow = "1"
chrono = "0.4"
clap = { version = "4", features = ["derive"] }
console = "0.15"
dashmap = "6"
dialoguer = "0.11"
flate2 = "1"
fs2 = "0.4"
futures = "0.3"
indicatif = "0.17"
nix = { version = "0.29", features = ["user", "fs"] }
regex = "1"
reqwest = { version = "0.12", default-features = false, features = ["rustls-tls", "stream"] }
serde = { version = "1", features = ["derive"] }
serde_json = "1"
sha2 = "0.10"
sys-info = "0.9"
tar = "0.4"
tempfile = "3"
thiserror = "1"
tokio = { version = "1", features = ["full"] }
tracing = "0.1"
tracing-subscriber = { version = "0.3", features = ["env-filter"] }
walkdir = "2"
which = "6"
