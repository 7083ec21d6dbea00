[package]
name = "cosmic-applet-docker"
version = "0.1.0"
edition = "2021"
publish = false

[dependencies]
bollard = "0.18"
futures = "0.3"
tokio = { version = "1", features = ["time"] }
notify-rust = "4"
open = "5"
tracing = "0.1"
tracing-subscriber = "0.3"
i18n-embed = { version = "*", features = ["fluent-system", "desktop-requester"] }
i18n-embed-fl = "*"
rust-embed = "8"
once_cell = "1"
