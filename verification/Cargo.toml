[package]
name = "session_auth"
version = "0.1.0"
edition = "2021"
publish = false

[dependencies]
uuid = { version = "*", features = ["v4"] }
time = "*"
bcrypt = "*"
pulldown-cmark = "*"
ammonia = "*"
axum = "*"
tokio = { version = "*", features = ["rt-multi-thread", "macros", "net"] }
tower-cookies = "*"
serde = { version = "*", features = ["derive"] }
serde_json = "*"
