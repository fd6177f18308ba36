[package]
name = "burn_benches"
version = "0.1.0"
edition = "2021"
publish = false

[dependencies]
clap = { version = "*", features = ["derive"] }
ctrlc = "*"
criterion = { version = "*", default-features = false }
sysinfo = "*"
nvml-wrapper = "*"
