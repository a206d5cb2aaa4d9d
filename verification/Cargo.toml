[package]
name = "agg_tunnel"
version = "0.1.0"
edition = "2021"
publish = false

[dependencies]
tokio = { version = "1", features = ["rt-multi-thread", "net", "io-util", "macros", "time", "sync"] }
clap = { version = "4", features = ["derive"] }
anyhow = "1"
socket2 = "0.5"
