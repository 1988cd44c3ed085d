[package]
name = "pi_radio"
version = "0.1.0"
edition = "2021"
publish = false

[dependencies]
libc = "0.2"
rppal = "*"
tokio = { version = "1", features = ["macros", "rt-multi-thread", "signal", "time"] }
