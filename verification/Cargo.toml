[package]
name = "cpu_emulator"
version = "0.1.0"
edition = "2021"
publish = false

[dependencies]
crossterm = "*"
tokio = { version = "1", features = ["rt-multi-thread", "macros", "time"] }
