[package]
name = "omnichat"
version = "0.1.0"
edition = "2021"
publish = false

[dependencies]
serde = { version = "1", features = ["derive"] }
serde_json = "1"
flate2 = "1"
uuid = { version = "1", features = ["v4"] }
log = "0.4"
env_logger = "*"
dirs-next = "2"
open = "5"
parking_lot = "0.12"
rusqlite = { version = "*", features = ["bundled"] }
notify-rust = "4"
tray-icon = "*"
gtk = "0.18"
cef = "*"
