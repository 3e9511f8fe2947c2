[package]
name = "twitch_client"
version = "0.1.0"
edition = "2021"
publish = false

[dependencies]
dotenv = "0.15"
futures = "0.3"
irc = "*"
tokio = { version = "1", features = ["macros", "rt-multi-thread"] }
