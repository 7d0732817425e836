[package]
name = "honeybee"
version = "0.1.0"
edition = "2021"
publish = false

[dependencies]
bytes = "1"
chrono = "0.4"
chrono-tz = "0.8"
clap = { version = "4", features = ["derive"] }
dirs = "5"
dirs-sys = "0.4"
futures = "0.3"
glob = "0.3"
libc = "0.2"
neli = { version = "0.6", features = ["async"] }
neli-wifi = { version = "0.5", features = ["async"] }
nix = "0.26"
serde = { version = "1", features = ["derive"] }
serde_json = "1"
serde_with = "3"
shellexpand = "3"
smart-default = "0.7"
tokio = { version = "1", features = ["full"] }
toml = "0.7"
