[package]
name = "bot_rs_core"
version = "0.1.0"
edition = "2021"
publish = false

[dependencies]
regex = "*"
url = "*"
chrono = "*"
rand = "*"
libloading = "*"
tokio = { version = "*", features = ["rt-multi-thread", "macros", "sync", "time"] }
futures = "*"
serde = { version = "*", features = ["derive"] }
serde_json = "*"
dirs-next = "*"
irc-rust = "*"
log = "*"
async-trait = "*"
