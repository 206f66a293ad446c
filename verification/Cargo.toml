[package]
name = "a11y_listener"
version = "0.1.0"
edition = "2021"
publish = false

[dependencies]
atspi = "*"
zbus = "*"
tokio = { version = "*", features = ["macros", "rt-multi-thread"] }
tokio-stream = "*"
