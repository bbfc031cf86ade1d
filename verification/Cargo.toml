[package]
name = "emote_bridge"
version = "0.1.0"
edition = "2021"
publish = false

[dependencies]
rosc = "*"
idsp = "*"
vigem-client = "*"
windows-sys = { version = "*", features = ["Win32_Foundation", "Win32_UI_WindowsAndMessaging"] }
