[package]
name = "authramp"
version = "0.1.0"
edition = "2021"
publish = false

[dependencies]
chrono = { version = "0.4", default-features = false, features = ["clock", "std"] }
toml = "0.8"
colored = "2"
clap = { version = "4", features = ["derive"] }
libc = "0.2"
uzers = "*"
log = "0.4"
sysinfo = "*"
syslog = "*"
