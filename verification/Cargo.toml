[package]
name = "souvlaki"
version = "0.1.0"
edition = "2021"
publish = false

[dependencies]
base64 = "=0.22.1"
block = "=0.1.6"
cocoa = "=0.27.0"
core-graphics = "=0.25.0"
dispatch = "=0.2.0"
infer = "=0.22.0"
objc = "=0.2.7"
pollster = "=1.0.1"
thiserror = "=1.0.69"
windows = { version = "*", features = ["Foundation", "Foundation_Collections", "Media", "Storage", "Storage_Streams", "Win32_Foundation", "Win32_System_WinRT"] }
zbus = "=5.19.0"
