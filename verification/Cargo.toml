[package]
name = "mcstatus_watch"
version = "0.1.0"
edition = "2021"
publish = false

[dependencies]
notify-rust = "*"
reqwest = { version = "*", default-features = false, features = ["json", "rustls-tls"] }
serde = { version = "*", features = ["derive"] }
tokio = { version = "*", features = ["rt-multi-thread", "macros", "time"] }
