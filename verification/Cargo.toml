[package]
name = "iron_presence"
version = "0.1.0"
edition = "2021"
publish = false

[dependencies]
btleplug = "*"
ctrlc = "*"
discord-rich-presence = "*"
serde = { version = "*", features = ["derive"] }
tokio = { version = "*", features = ["rt-multi-thread", "macros", "time"] }
uuid = "*"
