[package]
name = "copperline"
version = "0.1.0"
edition = "2021"
publish = false

[dependencies]
anyhow = "1"
arboard = { version = "3", default-features = false }
egui = "*"
egui-wgpu = { version = "*", default-features = false }
egui-winit = { version = "*", default-features = false }
log = "0.4"
rfd = { version = "*", default-features = false, features = ["xdg-portal"] }
serde = { version = "1", features = ["derive"] }
tempfile = "3"
toml = "*"
windows-sys = { version = "*", features = ["Win32_Foundation", "Win32_Graphics_Gdi", "Win32_UI_WindowsAndMessaging"] }
winit = "0.30"
