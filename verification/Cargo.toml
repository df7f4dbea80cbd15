[package]
name = "service_shutdown"
version = "0.1.0"
edition = "2021"
publish = false

[dependencies]
anyhow = "=1.0.104"
tokio = { version = "=1.54.1", default-features = false, features = ["rt", "time", "signal", "sync", "macros"] }
tracing = "=0.1.44"
tracing-subscriber = { version = "=0.3.23", features = ["fmt"] }
windows = { version = "=0.59.0", features = ["Win32_Foundation", "Win32_Security", "Win32_System_Services", "Win32_System_Threading"] }
