[package]
name = "chitchat"
version = "0.1.0"
edition = "2021"
publish = false

[dependencies]
anyhow = "1"
bytesize = "1"
futures-util = "0.3"
home = "0.5"
lazy_static = "1"
llm = "0.1"
pdf-extract = "*"
rand = "0.8"
reqwest = { version = "0.11", features = ["stream"] }
serde = { version = "1", features = ["derive"] }
serde_json = "1"
tracing = "0.1"
tracing-appender = "0.2"
tracing-subscriber = { version = "0.3", features = ["json", "env-filter"] }
