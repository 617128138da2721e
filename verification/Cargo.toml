[package]
name = "dns_switcher"
version = "0.1.0"
edition = "2021"
publish = false

[dependencies]
dotenv = "*"
mikrotik-rs = "*"
tiny_http = "*"
tokio = { version = "*", features = ["rt-multi-thread"] }
