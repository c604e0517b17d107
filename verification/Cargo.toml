[package]
name = "lum"
version = "0.1.0"
edition = "2021"
publish = false

[dependencies]
serde = { version = "1", features = ["derive"] }
serde_json = "1"
dirs = "*"
chrono = "0.4"
windows = { version = "*", features = ["Win32_Globalization", "Win32_System_Time"] }
