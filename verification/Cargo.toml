[package]
name = "tavern"
version = "0.1.0"
edition = "2021"
publish = false

[dependencies]
anyhow = "1"
chrono = "0.4"
futures = "0.3"
thiserror = "2"
tokio = { version = "1", features = ["full"] }
