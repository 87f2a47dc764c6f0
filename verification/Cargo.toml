[package]
name = "split_pane"
version = "0.1.0"
edition = "2021"
publish = false

[dependencies]
iced = { version = "0.13", default-features = false, features = ["advanced", "tokio"] }
tokio = { version = "1", features = ["time"] }
