[package]
name = "airpods_core"
version = "0.1.0"
edition = "2021"
publish = false

[dependencies]
aes = "0.8"
bluer = { version = "0.17", features = ["bluetoothd"] }
clap = { version = "4", features = ["derive"] }
crossterm = "0.28"
dbus = "0.9"
env_logger = "0.11"
futures = "0.3"
hex = "0.4"
libpulse-binding = "2"
log = "0.4"
ratatui = "0.29"
serde = { version = "1", features = ["derive"] }
serde_json = "1"
tokio = { version = "1", features = ["full"] }
toml = "0.8"
uuid = "1"
zbus = "4"
