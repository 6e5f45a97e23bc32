[package]
name = "krustacean"
version = "0.1.0"
edition = "2021"
publish = false

[dependencies]
arc-swap = "1"
const_format = "0.2"
libc = "0.2"
log = "0.4"
log4rs = "1"
nix = { version = "*", features = ["net", "socket", "uio"] }
sd-notify = "*"
serde = { version = "1", features = ["derive"] }
serde_json = "1"
socket2 = { version = "*", features = ["all"] }
tokio = { version = "1", features = ["fs", "io-util", "macros", "net", "rt-multi-thread", "signal", "sync", "time"] }
