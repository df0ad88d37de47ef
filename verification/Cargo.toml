[package]
name = "rust_flipit"
version = "0.1.0"
edition = "2021"
publish = false

[dependencies]
chrono = "0.4"
windows = { version = "0.60", features = ["Win32_Foundation", "Win32_UI_WindowsAndMessaging", "Win32_Graphics_Gdi", "Win32_Graphics_GdiPlus", "Win32_System_LibraryLoader"] }
