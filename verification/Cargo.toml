[package]
name = "buongiorno_bot"
version = "0.1.0"
edition = "2021"
publish = false

[dependencies]
anyhow = "1"
buongiornissimo-rs = "*"
chrono = "0.4"
log = "0.4"
rand = "*"
serenity = "0.11"
tokio = { version = "1", features = ["macros", "rt-multi-thread", "time"] }
tracing = "0.1"
tracing-subscriber = "0.3"
url = "2"
