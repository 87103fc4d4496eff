[package]
name = "blink_timer"
version = "0.1.0"
edition = "2021"
publish = false

[dependencies]
anyhow = "*"
clap = { version = "*", features = ["derive"] }
dirs = "*"
env_logger = "*"
evdev = "*"
log = "*"
notify-rust = "*"
rand = "*"
rmp-serde = "*"
rodio = "*"
serde = { version = "*", features = ["derive"] }
serde_yaml_ng = "*"
tokio = { version = "*", features = ["rt", "macros", "net", "time", "signal", "sync", "io-util"] }
tokio-stream = "*"
