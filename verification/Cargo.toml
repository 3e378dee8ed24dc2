[package]
name = "customizable_floating_window"
version = "0.1.0"
edition = "2021"
publish = false

[dependencies]
libloading = "0.8"
png = "0.18"
pollster = "*"
raw-window-handle = "0.6"
serde = { version = "1", features = ["derive"] }
serde_json = "1"
slint = { version = "~1.9", default-features = false, features = ["std", "compat-1-2", "raw-window-handle-06"] }
slint-interpreter = { version = "~1.9", default-features = false, features = ["std", "compat-1-2", "raw-window-handle-06"] }
x11-dl = "2"
