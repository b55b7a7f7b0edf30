[package]
name = "microswitch"
version = "0.1.0"
edition = "2021"
publish = false

[dependencies]
rand = "0.8"
serde = { version = "1", features = ["derive"] }
serde_yaml = "0.9"
thiserror = "1"
gilrs = { version = "0.10", default-features = false }
iced = { version = "0.10", default-features = false, features = ["tokio"] }
iced_futures = "0.7"
tokio = { version = "1", features = ["rt-multi-thread"] }
futures = "0.3"
path-absolutize = "3"
