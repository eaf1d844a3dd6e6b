[package]
name = "figgie_auto"
version = "0.1.0"
edition = "2021"
publish = false

[dependencies]
rand = "0.8"
kanal = "*"
tokio = { version = "1", features = ["rt-multi-thread", "sync", "time"] }
