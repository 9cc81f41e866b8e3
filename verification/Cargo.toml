[package]
name = "windns_sd"
version = "0.1.0"
edition = "2021"
publish = false

[dependencies]
astro-dnssd = "*"
config = "*"
serde = { version = "*", features = ["derive"] }
windows-service = "*"
