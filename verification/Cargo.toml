[package]
name = "shortas"
version = "0.1.0"
edition = "2021"
publish = false

[dependencies]
uuid = { version = "=1.29.0", features = ["v4", "serde"] }
chrono = { version = "=0.4.45", features = ["serde"] }
serde = { version = "=1.0.229", features = ["derive"] }
serde_json = "=1.0.154"
rand = "=0.9.5"
anyhow = "=1.0.104"
thiserror = "=2.0.21"
async-trait = "=0.1.92"
tokio = { version = "1", features = ["rt-multi-thread", "macros", "sync", "time", "signal"] }
reqwest = { version = "0.12", default-features = false, features = ["json", "rustls-tls"] }
jsonwebtoken = "9"
config = { version = "0.14", default-features = false, features = ["toml"] }
dotenv = "=0.15.0"
clap = { version = "4", features = ["derive", "env"] }
tracing = "=0.1.44"
tracing-subscriber = "0.3"
futures = "=0.3.34"
