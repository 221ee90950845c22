[package]
name = "tegra_rcm"
version = "0.1.0"
edition = "2021"
publish = false

[dependencies]
rusb = "0.9"
libusbk = "0.2"
notify = "6"
log = "0.4"
cfg-if = "1"
thiserror = "1"
anyhow = "1"
camino = "1"
clap = { version = "4", features = ["derive"] }
clap-verbosity-flag = "2"
console = "0.15"
indicatif = "0.17"
dirs = "5"
once_cell = "1"
tracing = "0.1"
tracing-subscriber = { version = "0.3", default-features = false, features = ["fmt", "ansi"] }
