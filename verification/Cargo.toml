[package]
name = "rusty_gui"
version = "0.1.0"
edition = "2021"
publish = false

[dependencies]
chrono = "0.4"
colored = "2"
winapi = { version = "0.3", features = ["winuser", "wingdi", "libloaderapi", "wincon", "windef", "minwindef", "ntdef"] }
