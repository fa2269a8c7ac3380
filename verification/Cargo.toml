[package]
name = "nonar"
version = "0.1.0"
edition = "2021"
publish = false

[dependencies]
anyhow = "1"
core-foundation = "*"
coreaudio-sys = "*"
hidapi = { version = "2", default-features = false, features = ["linux-native-basic-udev"] }
notify-rust = "4"
thiserror = "2"
tracing = "0.1"
tracing-journald = "0.3"
tracing-subscriber = { version = "0.3", features = ["env-filter"] }
