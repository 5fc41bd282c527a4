[package]
name = "discord_watchdog"
version = "0.1.0"
edition = "2021"
publish = false

[dependencies]
anyhow = "1"
dotenv = "0.15"
fern = "0.7"
humantime = "2"
log = "0.4"
poise = "0.6"
serde = { version = "1", features = ["derive"] }
surge-ping = "0.8"
tokio = { version = "1", features = ["macros", "rt-multi-thread", "fs", "net", "time", "sync"] }
toml = "0.8"
