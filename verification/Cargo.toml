[package]
name = "egui_overlay"
version = "0.1.0"
edition = "2021"
publish = false

[dependencies]
anyhow = "=1.0.104"
egui = "=0.16.1"
egui_glium = "=0.16.0"
glium = "=0.31.0"
raw-window-handle = "=0.4.3"
windows = { version = "0.52", features = ["Win32_Foundation", "Win32_UI_Input_KeyboardAndMouse", "Win32_UI_WindowsAndMessaging"] }
