[package]
name = "security_context"
version = "0.1.0"
edition = "2021"
publish = false

[dependencies]
nu-ansi-term = "0.50"
unicode-width = "0.2"
windows-sys = { version = "0.59", features = ["Win32_Foundation", "Win32_Security", "Win32_Security_Authorization", "Win32_System_Memory"] }
