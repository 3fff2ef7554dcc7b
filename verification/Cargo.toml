[package]
name = "udp_relay"
version = "0.1.0"
edition = "2021"
publish = false

[dependencies]
rand = "0.8"
tokio = { version = "1", features = ["rt-multi-thread", "net", "sync", "macros"] }
clap = { version = "4", features = ["derive"] }
