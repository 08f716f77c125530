[package]
name = "aether_keeper"
version = "0.1.0"
edition = "2021"
publish = false

[dependencies]
soroban-sdk = "21"
serde = { version = "1", features = ["derive"] }
serde_json = "1"
clap = { version = "4", features = ["derive"] }
tokio = { version = "1", features = ["macros", "rt-multi-thread", "time"] }
tracing = "0.1"
tracing-subscriber = "0.3"
dirs = "5"
anyhow = "1"
