[package]
name = "bns_macros"
version = "0.1.0"
edition = "2021"
publish = false

[dependencies]
rust-ini = "0.18"
chrono = "0.4"
log = "0.4"
simplelog = "0.12"
log4rs = "1.1"
winapi = { version = "0.3", features = ["winuser", "windef"] }
windows = { version = "0.39", features = ["Win32_Foundation", "Win32_Graphics_Gdi", "Win32_UI_Input_KeyboardAndMouse", "Win32_UI_WindowsAndMessaging", "Win32_System_Threading", "Win32_System_Diagnostics_Debug", "Win32_System_Diagnostics_ToolHelp", "Win32_System_LibraryLoader", "Win32_System_SystemServices", "Win32_Security"] }
