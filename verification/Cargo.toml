[package]
name = "hypr_gestures"
version = "0.1.0"
edition = "2021"
publish = false

[dependencies]
anyhow = "*"
clap = { version = "*", features = ["derive"] }
evdev = "*"
regex = "*"
serde = { version = "*", features = ["derive"] }
serde_json = "*"
shellexpand = "*"
tokio = { version = "*", features = ["macros", "process", "rt-multi-thread"] }
toml = "*"
tracing = "*"
tracing-subscriber = "*"
