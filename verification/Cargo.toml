[package]
name = "stable-diffusion-bot"
version = "0.1.0"
edition = "2021"
publish = false

[dependencies]
base64 = "=0.21.7"
url = "=2.5.8"
rand = "=0.8.8"
uuid = { version = "=1.29.0", features = ["v4", "serde"] }
serde = { version = "=1.0.229", features = ["derive"] }
serde_json = "=1.0.154"
anyhow = "=1.0.104"
thiserror = "=1.0.69"
reqwest = { version = "=0.11.27", features = ["json", "multipart"] }
tokio = { version = "=1.54.1", features = ["full"] }
teloxide = { version = "=0.12.2", features = ["macros", "sqlite-storage"] }
takecell = "=0.1.1"
futures-util = "=0.3.34"
tokio-tungstenite = "=0.20.1"
figment = { version = "=0.10.19", features = ["toml", "env"] }
clap = { version = "=4.6.7", features = ["derive"] }
tracing = "=0.1.44"
tracing-subscriber = { version = "=0.3.23", features = ["env-filter"] }
