[package]
name = "displayz"
version = "0.2.0"
edition = "2021"
publish = false

[dependencies]
color-eyre = "=0.6.5"
env_logger = "=0.11.11"
log = "=0.4.34"
serde = { version = "=1.0.229", features = ["derive"] }
serde_json = "=1.0.154"
structopt = "=0.3.26"
thiserror = "=2.0.21"
windows = { version = "=0.58.0", features = ["Win32_Devices_Display", "Win32_Foundation", "Win32_Graphics_Gdi"] }
winsafe = { version = "=0.0.29", features = ["user"] }
