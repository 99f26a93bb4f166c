[package]
name = "glint"
version = "0.1.0"
edition = "2021"
publish = false

[dependencies]
regex = "=1.13.1"
dirs = "=7.0.0"
toml = "=1.1.7"
windows = { version = "=0.61.3", features = [
    "Win32_Foundation",
    "Win32_Graphics_Direct2D",
    "Win32_Graphics_Direct2D_Common",
    "Win32_Graphics_Dwm",
    "Win32_Graphics_Dxgi_Common",
    "Win32_Graphics_Gdi",
    "Win32_System_LibraryLoader",
    "Win32_UI_Accessibility",
    "Win32_UI_HiDpi",
    "Win32_UI_WindowsAndMessaging",
] }
