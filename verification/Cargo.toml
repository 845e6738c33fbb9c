[package]
name = "flamingo_agent"
version = "0.1.0"
edition = "2021"
publish = false

[dependencies]
chrono = { version = "0.4", default-features = false, features = ["std", "clock"] }
log = { version = "0.4", features = ["std"] }
windows-service = "0.8"
windows-sys = { version = "0.59", features = ["Win32_Foundation", "Win32_Security", "Win32_Security_Authorization", "Win32_System_Console", "Win32_System_ProcessStatus", "Win32_System_Threading"] }
