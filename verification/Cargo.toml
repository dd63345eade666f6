[package]
name = "rusty_bot"
version = "0.1.0"
edition = "2021"
publish = false

[dependencies]
serenity = "0.11"
chrono = "0.4"
tokio = { version = "1", features = ["macros", "rt-multi-thread"] }
async-trait = "0.1"
lazy_static = "1"
