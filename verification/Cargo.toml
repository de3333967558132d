[package]
name = "auv_cli"
version = "0.1.0"
edition = "2021"
publish = false

[dependencies]
uuid = "1"
hex = "0.4"
getrandom = "0.3"
clap = { version = "4", features = ["derive"] }
serde = { version = "1", features = ["derive"] }
serde_json = "1"
