[package]
name = "mcp_worker"
version = "0.1.0"
edition = "2021"
publish = false

[dependencies]
dotenv = "0.15"
redis = { version = "0.23", features = ["tokio-comp"] }
serde = { version = "1", features = ["derive"] }
serde_json = "1"
tokio = { version = "1", features = ["macros", "process", "rt-multi-thread", "time"] }
