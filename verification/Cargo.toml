[package]
name = "zen"
version = "0.1.0"
edition = "2021"
publish = false

[dependencies]
unicode-segmentation = "1"
tokio = { version = "1", default-features = false, features = ["sync"] }
syntect = { version = "5", default-features = false, features = ["default-fancy"] }
termion = "*"
env_logger = "*"
