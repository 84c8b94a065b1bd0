[package]
name = "thumbnail_preloader"
version = "0.1.0"
edition = "2021"
publish = false

[dependencies]
thousands = "0.2"
dunce = "1"
clap = { version = "4", features = ["derive"] }
windows = { version = "0.52", features = ["Win32_Foundation", "Win32_System_Com", "Win32_UI_Shell", "Win32_UI_Shell_Common", "Win32_Graphics_Gdi"] }
windows-core = "0.52"
