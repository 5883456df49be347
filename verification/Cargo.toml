[package]
name = "screencap"
version = "0.1.0"
edition = "2021"
publish = false

[dependencies]
bytes = "1"
yuv = "*"
core-graphics = "*"
windows = { version = "0.61", features = ["Foundation", "Graphics_Capture", "Graphics_DirectX_Direct3D11", "Win32_Foundation", "Win32_Graphics_Direct3D", "Win32_Graphics_Direct3D11", "Win32_Graphics_Dxgi", "Win32_Graphics_Dxgi_Common", "Win32_Graphics_Gdi", "Win32_System_WinRT", "Win32_System_WinRT_Direct3D11", "Win32_System_WinRT_Graphics_Capture", "Win32_UI_WindowsAndMessaging"] }
