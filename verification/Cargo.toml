[package]
name = "hi-my-light"
version = "0.1.0"
edition = "2021"
publish = false

[dependencies]
anyhow = "1"
btleplug = "0.11"
tokio = { version = "1", features = ["rt", "time", "macros", "sync"] }
uuid = "1"
serde = { version = "1", features = ["derive"] }
serde_json = "1"
libc = "0.2"
futures-lite = "2"
zbus = "5"
image = { version = "0.25", default-features = false, features = ["png", "ico"] }
