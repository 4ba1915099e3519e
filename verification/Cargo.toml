[package]
name = "rush"
version = "0.1.0"
edition = "2021"
publish = false

[dependencies]
conch-parser = "0.1"
lazy_static = "1.4"
libc = "0.2"
nix = "0.23"
rustyline = "9"
serde = { version = "1", features = ["derive"] }
serde_yaml = "0.8"
signal-hook = "0.3"
