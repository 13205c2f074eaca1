[package]
name = "over_there"
version = "0.1.0"
edition = "2021"
publish = false

[dependencies]
aes-gcm = "0.10"
aes-gcm-siv = "0.11"
aes-siv = "0.7"
lru = "0.12"
rand = "0.8"
serde = { version = "1", features = ["derive"] }
serde-big-array = "0.5"
tokio = { version = "1", features = ["fs", "io-util", "process", "sync", "rt", "time", "macros", "net"] }
log = "0.4"
futures = "0.3"
