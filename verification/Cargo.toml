[package]
name = "oxide"
version = "0.1.0"
edition = "2021"
publish = false

[dependencies]
sdl2 = "*"
serde = { version = "*", features = ["derive"] }
tracing = "*"
tracing-appender = "*"
tracing-subscriber = { version = "*", features = ["env-filter"] }
dirs = "*"
