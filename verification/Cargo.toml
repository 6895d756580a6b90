[package]
name = "xtransfer"
version = "0.1.0"
edition = "2021"
publish = false

[dependencies]
staging-xcm = "=1.0.0"
staging-xcm-executor = "1"
parity-scale-codec = { version = "=3.7.5", features = ["derive"] }
scale-info = { version = "=2.11.6", features = ["derive"] }
log = "=0.4.35"
