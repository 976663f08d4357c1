[package]
name = "rk-m87-sync"
version = "0.1.0"
edition = "2021"
publish = false

[dependencies]
argh = "0.1"
chrono = "0.4"
env_logger = "0.11"
libc = "0.2"
libpulse-binding = "2"
log = "0.4"
nix = { version = "0.29", features = ["poll"] }
signal-hook = "0.3"
thiserror = "2"
