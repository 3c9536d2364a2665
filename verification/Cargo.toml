[package]
name = "qsk"
version = "0.1.0"
edition = "2021"
publish = false

[dependencies]
async-compat = "=0.2.6"
async-std = "=1.13.2"
clap = "=3.2.25"
evdev = "=0.13.2"
fern = "=0.6.2"
futures = "=0.3.34"
log = "=0.4.34"
serde = { version = "=1.0.229", features = ["derive"] }
serde_json = "=1.0.151"
