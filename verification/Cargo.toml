[package]
name = "samrs"
version = "0.1.0"
edition = "2021"
publish = false

[dependencies]
clap = { version = "=4.6.7", features = ["derive"] }
indicatif = "=0.17.11"
libloading = "=0.8.9"
poll-promise = { version = "=0.3.0", features = ["tokio"] }
reqwest = { version = "=0.11.27", features = ["json"] }
serde = { version = "=1.0.229", features = ["derive"] }
serde_json = "=1.0.154"
steamworks = { version = "=0.13.1", features = ["raw-bindings"] }
thiserror = "=1.0.69"
tokio = { version = "=1.54.1", features = ["rt", "time", "fs", "io-util", "net"] }
