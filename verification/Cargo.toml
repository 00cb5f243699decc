[package]
name = "lorehub"
version = "0.1.0"
edition = "2021"
publish = false

[dependencies]
serde_json = { version = "*", features = ["preserve_order"] }
dashmap = "*"
regex = "*"
uuid = { version = "*", features = ["v4"] }
tokio-util = "*"
serde = { version = "*", features = ["derive"] }
tokio = { version = "*", features = ["fs", "io-util", "sync", "rt", "macros"] }
actix-web = "*"
actix-ws = "*"
actix-files = "*"
futures-util = "*"
bytes = "*"
anyhow = "*"
dotenv = "*"
tracing = "*"
