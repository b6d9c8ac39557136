[package]
name = "tapoctl"
version = "0.1.0"
edition = "2021"
publish = false

[dependencies]
tokio = { version = "*", features = ["rt-multi-thread", "sync", "macros", "time"] }
serde = { version = "*", features = ["derive"] }
serde_json = "*"
toml = "*"
clap = { version = "*", features = ["derive"] }
clap_complete = "*"
colored = "*"
colorsys = "*"
dirs = "*"
log = "*"
env_logger = "*"
spinoff = "*"
futures = "*"
tapo = "*"
