[package]
name = "pool_broker"
version = "0.1.0"
edition = "2021"
publish = false

[dependencies]
uuid = { version = "*", features = ["v4"] }
tokio = { version = "*", default-features = false, features = ["sync", "rt-multi-thread", "macros", "time"] }
redis = "*"
reqwest = { version = "*", default-features = false, features = ["json"] }
rocket = { version = "0.5", features = ["json"] }
serde = { version = "*", features = ["derive"] }
serde_json = "*"
toml = "*"
dotenv = "*"
anyhow = "*"
