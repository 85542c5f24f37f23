[package]
name = "iced_plugin"
version = "0.1.0"
edition = "2021"
publish = false

[dependencies]
iced_core = "=0.12.3"
iced_futures = "=0.12.0"
iced_runtime = "=0.12.1"
iced_style = "0.12"
iced_widget = { version = "0.12", features = ["svg"] }
lazy_static = "=1.5.1"
libloading = "=0.8.9"
