[package]
name = "blog_core"
version = "0.1.0"
edition = "2021"
publish = false

[dependencies]
anyhow = "1"
arc-swap = "1"
argon2 = "0.5"
axum = "0.7"
chrono = "0.4"
clap = "4"
config = "*"
jsonwebtoken = "9"
password-hash = "0.5"
rand = "0.8"
serde = { version = "1", features = ["derive"] }
serde_json = "1"
tokio = { version = "1", features = ["rt-multi-thread", "net", "sync", "macros"] }
tower-http = { version = "*", features = ["catch-panic"] }
