[package]
name = "faraday"
version = "0.1.0"
edition = "2021"
publish = false

[dependencies]
hex = "0.4"
rand = { version = "0.8", features = ["small_rng"] }
serde = { version = "1", features = ["derive"] }
serde_json = "1"
serde_yaml = "0.9"
clap = { version = "4", features = ["derive", "env"] }
chrono = "0.4"
tokio = { version = "1", features = ["full"] }
async-trait = "0.1"
tokio-serial = { version = "5", default-features = false }
serialport = { version = "4", default-features = false }
thiserror = "1"
anyhow = "1"
termcolor = "1"
tracing = "0.1"
tracing-subscriber = "0.3"
nix = { version = "0.29", features = ["term", "fs"] }
libc = "0.2"
