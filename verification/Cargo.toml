[package]
name = "gnomelab"
version = "0.1.0"
edition = "2021"
publish = false

[dependencies]
tokio = { version = "1", features = ["rt-multi-thread", "process", "sync", "time", "macros"] }
process-wrap = { version = "*", features = ["tokio1"] }
shellexpand = "*"
serde = { version = "1", features = ["derive"] }
serde_json = "1"
html-escape = "*"
serde_urlencoded = "*"
sysinfo = "*"
