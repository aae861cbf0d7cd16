[package]
name = "mintodo"
version = "0.1.0"
edition = "2021"
publish = false

[dependencies]
termion = "*"
tokio = { version = "1", features = ["macros", "rt-multi-thread"] }
