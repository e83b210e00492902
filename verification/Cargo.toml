[package]
name = "secret-service"
version = "0.1.0"
edition = "2021"
publish = false

[dependencies]
anyhow = "1"
async-trait = "*"
clap = { version = "4", features = ["derive"] }
gethostname = "*"
russh = "*"
russh-sftp = "*"
serde = { version = "1", features = ["derive"] }
serde_json = "1"
tokio = { version = "1", features = ["full"] }
tokio-rusqlite = { version = "*", features = ["bundled"] }
tracing = "*"
tracing-subscriber = "*"
uuid = { version = "1", features = ["v4"] }
