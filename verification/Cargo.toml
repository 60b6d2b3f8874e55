[package]
name = "nuna"
version = "0.1.0"
edition = "2021"
publish = false

[dependencies]
anyhow = "=1.0.104"
crossbeam-channel = "=0.5.17"
image = { version = "=0.25.10", default-features = false, features = ["ico"] }
kanata-interception = "=0.3.0"
log = "=0.4.34"
simplelog = "=0.12.2"
single-instance = "=0.3.3"
tao = "=0.37.2"
tray-icon = "=0.26.1"
windows = { version = "=0.58.0", features = ["Win32_Foundation", "Win32_UI_Input_KeyboardAndMouse"] }
