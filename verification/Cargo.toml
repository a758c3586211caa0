[package]
name = "hotkey_bridge"
version = "0.1.0"
edition = "2021"
publish = false

[dependencies]
napi = { version = "*", features = ["napi4"] }
napi-derive = "*"
once_cell = "*"
web-view = "*"
windows = { version = "*", features = ["Win32_Foundation", "Win32_System_LibraryLoader", "Win32_System_Threading", "Win32_UI_Input_KeyboardAndMouse", "Win32_UI_WindowsAndMessaging"] }
