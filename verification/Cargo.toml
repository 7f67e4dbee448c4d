[package]
name = "tcp_relay"
version = "0.1.0"
edition = "2021"
publish = false

[dependencies]
tokio = { version = "*", features = ["rt-multi-thread", "net", "io-util", "time", "macros", "sync"] }
futures = "*"
nix = { version = "*", features = ["socket", "net"] }
socket2 = "*"
