[package]
name = "whimsi"
version = "0.1.0"
edition = "2021"
publish = false

[dependencies]
regex = "=1.13.1"
msi = "=0.11.1"
cab = "=0.6.0"
tempfile = "=3.27.0"
uuid = { version = "=1.29.0", features = ["v4"] }
getrandom = "=0.4.3"
walkdir = "=2.5.0"
camino = "=1.2.6"
clap = { version = "=4.6.7", features = ["derive"] }
ron = "=0.12.3"
serde = { version = "=1.0.229", features = ["derive"] }
anyhow = "=1.0.104"
