[package]
name = "bluebgg"
version = "0.1.0"
edition = "2021"
publish = false

[dependencies]
arnak = "*"
poise = "*"
tokio = { version = "1", features = ["macros", "rt-multi-thread"] }
