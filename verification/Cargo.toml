[package]
name = "adhan"
version = "0.5.0"
edition = "2021"
publish = false

[dependencies]
chrono = "0.4"
regex = "1"
reqwest = "0.12"
serde = { version = "1", features = ["derive"] }
serde_json = "1"
tokio = { version = "1", features = ["macros", "rt-multi-thread"] }
clap = { version = "4", features = ["derive"] }
ratatui = "0.29"
