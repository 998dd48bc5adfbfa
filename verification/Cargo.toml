[package]
name = "chatgpt_player"
version = "1.1.0"
edition = "2021"
publish = false

[dependencies]
chrono = "0.4"
clap = { version = "4", features = ["derive"] }
reqwest = { version = "0.11", features = ["json"] }
rusqlite = "0.29"
serde = { version = "1", features = ["derive"] }
serde_json = "1"
spinners = "4"
tokio = { version = "1", features = ["macros", "rt-multi-thread"] }
