[package]
name = "tailsnip"
version = "0.1.0"
edition = "2021"
publish = false

[dependencies]
axum = "*"
constant_time_eq = "*"
reqwest = { version = "*", default-features = false, features = ["json"] }
serde = { version = "1", features = ["derive"] }
tokio = { version = "1", features = ["rt-multi-thread", "macros", "net", "time", "sync", "signal"] }
toml = "*"
