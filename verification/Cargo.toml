[package]
name = "mechanix_lockscreen"
version = "0.1.0"
edition = "2021"
publish = false

[dependencies]
chrono = "0.4"
io-uring = "0.7"
libc = "0.2"
nonstick = "*"
rustix = { version = "1", features = ["pipe"] }
taffy = "*"
tracing = "0.1"
tracing-subscriber = { version = "0.3", features = ["env-filter"] }
