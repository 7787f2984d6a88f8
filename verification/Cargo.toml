[package]
name = "universe_sim"
version = "0.1.0"
edition = "2021"
publish = false

[dependencies]
tokio = { version = "1", features = ["sync", "rt-multi-thread", "macros", "time", "net"] }
rand = "0.9"
axum = "0.8"
serde = { version = "1", features = ["derive"] }
chrono = "0.4"
