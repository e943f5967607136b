[package]
name = "health_check"
version = "0.1.0"
edition = "2021"
publish = false

[dependencies]
chrono = "*"
clap = { version = "*", features = ["derive"] }
reqwest = { version = "*", default-features = false }
serde_json = "*"
tokio = { version = "*", features = ["macros", "rt-multi-thread"] }
urlencoding = "*"
