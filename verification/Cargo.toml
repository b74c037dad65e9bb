[package]
name = "barebone_game"
version = "0.1.0"
edition = "2021"
publish = false

[dependencies]
utf16_literal = "=0.2.1"
windows = { version = "=0.52.0", features = ["Win32_Foundation", "Win32_Graphics_Direct3D", "Win32_Graphics_Direct3D12", "Win32_Graphics_Dxgi", "Win32_Graphics_Dxgi_Common", "Win32_Graphics_Gdi", "Win32_Security", "Win32_System_LibraryLoader", "Win32_UI_WindowsAndMessaging"] }
