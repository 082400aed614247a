[package]
name = "pinion"
version = "0.1.0"
edition = "2021"
publish = false

[dependencies]
anyhow = "1"
image = { version = "0.24", default-features = false, features = ["bmp", "gif", "jpeg", "png"] }
lz4 = "1"
lz4_flex = "0.11"
windows = { version = "0.43", features = ["Win32_Foundation", "Win32_Graphics_Gdi", "Win32_UI_Controls_Dialogs", "Win32_UI_WindowsAndMessaging"] }
