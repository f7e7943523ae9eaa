[package]
name = "twitchy_mojo"
version = "0.1.0"
edition = "2021"
publish = false

[dependencies]
anyhow = "*"
chrono = "*"
dotenvy = "*"
tokio = { version = "*", features = ["macros", "rt-multi-thread", "sync"] }
tracing = "*"
tracing-subscriber = "*"
twitch-irc = "*"
