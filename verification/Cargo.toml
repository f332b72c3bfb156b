[package]
name = "uring_reactor"
version = "0.1.0"
edition = "2021"
publish = false

[dependencies]
futures = "*"
io-uring = "*"
libc = "*"
log = "*"
timerfd = "*"
tokio-executor = "*"
