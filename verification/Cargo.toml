[package]
name = "guild_bot"
version = "0.1.0"
edition = "2021"
publish = false

[dependencies]
chrono = "0.4"
colored = "2"
dotenvy = "0.15"
rand = "0.8"
rmp-serde = "1"
serde = { version = "1", features = ["derive"] }
serenity = "0.12"
tokio = { version = "1", features = ["fs", "io-util", "macros", "rt-multi-thread", "time"] }
