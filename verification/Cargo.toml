[package]
name = "kanatabar"
version = "0.3.0"
edition = "2021"
publish = false

[dependencies]
anyhow = "1"
block2 = "0.6"
clap = { version = "4", features = ["derive", "env"] }
nix = { version = "*", features = ["fs", "user"] }
objc2 = "0.6"
objc2-foundation = "0.3"
objc2-user-notifications = "0.3"
png = "0.18"
serde = { version = "1", features = ["derive"] }
serde_json = "1"
tao = "*"
tokio = { version = "1", features = ["io-util", "macros", "net", "rt", "rt-multi-thread", "sync", "time"] }
tracing = "0.1"
tracing-subscriber = { version = "0.3", features = ["env-filter"] }
tray-icon = "0.24"
wry = "*"
