[package]
name = "rufetch"
version = "0.1.0"
edition = "2021"
publish = false

[dependencies]
dirs = "4.0"
serde = { version = "1.0", features = ["derive"] }
serde_derive = "1.0"
sysinfo = "0.23"
toml = "0.5"
whoami = "1"
