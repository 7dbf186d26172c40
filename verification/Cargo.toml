[package]
name = "qtty"
version = "0.1.0"
edition = "2021"
publish = false

[dependencies]
termios = "*"
tokio = { version = "*", features = ["full"] }
tokio-util = "*"
s2n-quic = "*"
pty-process = { version = "*", features = ["async"] }
clap = { version = "*", features = ["derive"] }
serde = { version = "*", features = ["derive"] }
toml = "*"
log = "*"
env_logger = "*"
