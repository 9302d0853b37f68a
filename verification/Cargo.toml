[package]
name = "wifi_config"
version = "0.1.0"
edition = "2021"
publish = false

[dependencies]
dbus = { version = "=0.9.12", features = ["vendored"] }
env_logger = "=0.11.11"
tokio = { version = "=1.53.2", features = ["macros", "rt-multi-thread"] }
