[package]
name = "happy"
version = "0.1.0"
edition = "2021"
publish = false

[dependencies]
btleplug = "0.11"
scrap = "0.5"
serde = { version = "1", features = ["derive"] }
serde_json = "1"
tokio = { version = "1", features = ["rt-multi-thread", "macros", "time", "sync"] }
