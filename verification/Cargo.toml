[package]
name = "playground"
version = "0.1.0"
edition = "2021"
publish = false

[dependencies]
rand = "=0.8.8"
dashmap = "=6.2.1"
time = { version = "=0.3.55", features = ["formatting", "parsing"] }
pluralizer = "=0.6.0"
crossterm = "=0.29.0"
http = "=1.5.0"
uuid = { version = "=1.29.0", features = ["v4"] }
serde = { version = "=1.0.229", features = ["derive"] }
serde_json = "=1.0.154"
clap = { version = "=4.6.7", features = ["derive"] }
tokio = { version = "1", features = ["rt-multi-thread", "macros"] }
axum = "0.8"
redis = { version = "*", features = ["tokio-comp"] }
futures = "0.3"
