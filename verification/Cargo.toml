[package]
name = "okk"
version = "0.1.0"
edition = "2021"
publish = false

[dependencies]
anyhow = "*"
chrono = "*"
exc = { version = "*", features = ["okx"] }
futures = "*"
image = { version = "*", default-features = false, features = ["png"] }
rust_decimal = "*"
serde = { version = "*", features = ["derive"] }
tao = "*"
tokio = { version = "*", features = ["rt-multi-thread", "macros", "time"] }
toml = "*"
tracing = "*"
tracing-subscriber = { version = "*", features = ["env-filter"] }
tray-icon = "*"
