[package]
name = "ashell"
version = "0.1.0"
edition = "2021"
publish = false

[dependencies]
iced = { version = "=0.12.1", default-features = false, features = ["advanced", "multi-window", "tokio"] }
libpulse-binding = { version = "=2.30.1", features = ["pa_v14"] }
log = "=0.4.34"
tokio = { version = "=1.54.1", default-features = false, features = ["rt", "sync"] }
