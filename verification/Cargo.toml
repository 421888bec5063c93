[package]
name = "localsend"
version = "0.1.0"
edition = "2021"
publish = false

[dependencies]
serde_json = "1"
path-clean = "*"
url = "2"
terminal-link = "*"
argh = "*"
directories = "*"
multicast-socket = "*"
names = { version = "*", default-features = false }
reqwest = { version = "0.12", default-features = false, features = ["blocking"] }
serde = { version = "1", features = ["derive"] }
tokio = { version = "1", features = ["rt-multi-thread", "fs", "io-util"] }
toml = "*"
uuid = { version = "1", features = ["v4"] }
