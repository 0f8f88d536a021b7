[package]
name = "nanashi"
version = "0.1.0"
edition = "2021"
publish = false

[dependencies]
ratatui = "0.29"
reqwest = { version = "0.12", default-features = false, features = ["json", "rustls-tls"] }
tokio = { version = "1", features = ["rt-multi-thread", "time", "sync", "macros"] }
serde = { version = "1", features = ["derive"] }
open = "5"
clipboard = "0.5"
