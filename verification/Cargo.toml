[package]
name = "zockervols"
version = "0.1.0"
edition = "2021"
publish = false

[dependencies]
byte-unit = "=3.1.4"
chashmap = "=2.2.2"
users = "=0.11.0"
clap = "2"
serde = { version = "1", features = ["derive"] }
serde_json = "1"
chrono = { version = "0.4", features = ["serde"] }
libc = "0.2"
signal-hook = "0.3"
listenfd = "1"
