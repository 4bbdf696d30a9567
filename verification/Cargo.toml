[package]
name = "xdpstats"
version = "0.1.0"
edition = "2021"
publish = false

[dependencies]
anyhow = "=1.0.104"
aya = "=0.13.1"
clap = { version = "=4.6.7", features = ["derive"] }
tokio = { version = "=1.54.1", features = ["rt-multi-thread", "macros", "time", "signal", "sync"] }
tokio-util = "=0.7.20"
crossterm = "=0.29.0"
ratatui = "=0.30.2"
libc = "=0.2.191"
num_cpus = "=1.17.0"
xsk-rs = "=0.11.0"

[dev-dependencies]
network-types = "=0.2.0"
