[package]
name = "humanlayer_wui"
version = "0.1.0"
edition = "2021"
publish = false

[dependencies]
async-trait = "0.1"
chrono = { version = "0.4", features = ["serde"] }
cocoa = "0.26"
dirs = "5"
log = "0.4"
nix = { version = "0.29", features = ["signal"] }
objc = "0.2"
regex = "1"
reqwest = { version = "0.12", default-features = false }
serde = { version = "1", features = ["derive"] }
serde_json = "1"
thiserror = "1"
tokio = { version = "1", features = ["io-util", "macros", "net", "rt", "sync", "time"] }
tracing = "0.1"
