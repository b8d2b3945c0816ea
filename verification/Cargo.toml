[package]
name = "termprobe"
version = "0.1.0"
edition = "2021"
publish = false

[dependencies]
anyhow = "1"
crossterm = "0.28"
futures = "0.3"
scopeguard = "1"
tokio = { version = "1", features = ["io-std", "io-util", "time", "rt"] }
