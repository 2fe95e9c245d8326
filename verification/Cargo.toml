[package]
name = "tyl_redis_pubsub_adapter"
version = "0.1.0"
edition = "2021"
publish = false

[dependencies]
redis = { version = "0.32", features = ["tokio-comp", "aio"] }
serde = { version = "1", features = ["derive"] }
serde_json = "1"
tokio = { version = "1", features = ["sync", "rt", "macros"] }
chrono = { version = "0.4", features = ["serde"] }
futures-util = "0.3"
async-trait = "0.1"
