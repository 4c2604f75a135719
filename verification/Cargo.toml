[package]
name = "verifybot"
version = "0.1.0"
edition = "2021"
publish = false

[dependencies]
serde_json = "*"
serenity = "0.10"
redis = "*"
reqwest = { version = "*", default-features = false }
tokio = { version = "*", features = ["macros", "rt-multi-thread"] }
dotenv = "*"
lazy_static = "*"
