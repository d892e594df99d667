[package]
name = "voice_input"
version = "0.1.0"
edition = "2021"
publish = false

[dependencies]
clap = { version = "*", features = ["derive"] }
cpal = "*"
enigo = "*"
futures = "*"
hound = "*"
serde = { version = "*", features = ["derive"] }
serde_json = "*"
tokio = { version = "*", features = ["rt", "net", "io-util", "macros", "sync", "time"] }
tokio-util = { version = "*", features = ["codec"] }
