[package]
name = "clam"
version = "0.1.0"
edition = "2021"
publish = false

[dependencies]
serde = { version = "=1.0.229", features = ["derive"] }
serde_json = "=1.0.154"
windows = { version = "=0.62.2", features = ["Win32_Foundation", "Win32_Security", "Win32_System_Power", "Win32_System_Registry", "Win32_System_Threading", "Win32_Graphics_Gdi", "Win32_UI_Shell", "Win32_UI_WindowsAndMessaging"] }
