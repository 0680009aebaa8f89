[package]
name = "swifttype"
version = "0.1.0"
edition = "2021"
publish = false

[dependencies]
arboard = { version = "*", default-features = false }
chrono = { version = "0.4", default-features = false, features = ["clock"] }
crossbeam-channel = "0.5"
dirs = "*"
eframe = { version = "*", default-features = false }
egui = { version = "*", default-features = false }
env_logger = { version = "*", default-features = false }
image = { version = "*", default-features = false, features = ["ico"] }
log = "0.4"
once_cell = "1"
serde = { version = "1", features = ["derive"] }
serde_json = "1"
tray-icon = { version = "*", default-features = false }
windows = { version = "*", features = ["Win32_Foundation", "Win32_Globalization", "Win32_System_Com", "Win32_System_ProcessStatus", "Win32_System_Threading", "Win32_UI_Input_Ime", "Win32_UI_Input_KeyboardAndMouse", "Win32_UI_Shell", "Win32_UI_WindowsAndMessaging"] }
