[package]
name = "wf_twitch_notifier"
version = "0.1.0"
edition = "2021"
publish = false

[dependencies]
anyhow = "1"
async-trait = "0.1"
better_default = "*"
chrono = "0.4"
clap = { version = "4", features = ["derive"] }
csv = "1"
regex = "1"
reqwest = { version = "*", features = ["json"] }
semver = { version = "1", features = ["serde"] }
serde = { version = "1", features = ["derive"] }
serde_json = "1"
textdistance = "1"
thiserror = "*"
tokio = { version = "1", features = ["full"] }
tracing = "0.1"
tracing-subscriber = "0.3"
twitch-irc = { version = "*", default-features = false, features = ["refreshing-token-rustls-webpki-roots", "transport-tcp-rustls-webpki-roots"] }
warframe = { version = "*", features = ["full"] }
