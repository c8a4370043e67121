[package]
name = "rrconsumer"
version = "0.1.0"
edition = "2021"
publish = false

[dependencies]
anyhow = "1"
uuid = { version = "1", features = ["v4"] }
serde = { version = "1", features = ["derive"] }
serde_json = "1"
prost = "0.14"
tokio = { version = "1", features = ["full"] }
tracing = "0.1"
tracing-subscriber = "0.3"
rabbitmq-stream-client = "*"
tigerbeetle-unofficial = "*"
dotenv = "0.15"
futures = "0.3"
