[package]
name = "d4evts"
version = "0.1.0"
edition = "2021"
publish = false

[dependencies]
chrono = "=0.4.45"
clap = { version = "=4.6.7", features = ["derive", "cargo"] }
iced = { version = "=0.14.0", features = ["tokio"] }
log = "=0.4.34"
