[package]
name = "datez"
version = "0.1.0"
edition = "2021"
publish = false

[dependencies]
anyhow = "=1.0.104"
chrono = "=0.4.45"
chrono-tz = "=0.10.4"
windows = { version = "=0.52.0", features = ["Win32_Foundation", "Win32_System_Time"] }
