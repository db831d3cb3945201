[package]
name = "auto_api"
version = "0.1.0"
edition = "2021"
publish = false

[dependencies]
axum = "0.7"
bytes = "1"
garde = { version = "*", features = ["derive", "email", "pattern"] }
indexmap = "2"
regex = "1"
regex_static = "0.1"
schemars = "1"
serde = { version = "1", features = ["derive"] }
serde_json = "1"
serde_qs = "*"
thiserror = "1"
tokio = { version = "1", features = ["macros", "net", "rt-multi-thread"] }
tokio-stream = "0.1"
ts-rs = { version = "*", default-features = false }
typed-headers = "0.2"
