[package]
name = "led_service2"
version = "0.1.0"
edition = "2021"
publish = false

[dependencies]
image = { version = "=0.25.10", default-features = false, features = ["png", "jpeg", "gif", "pnm"] }
humantime = "=2.4.0"
anyhow = "=1.0.104"
thiserror = "=2.0.21"
tokio = { version = "=1.54.1", features = ["rt-multi-thread", "macros", "sync", "signal", "time"] }
tonic = "=0.14.9"
tonic-prost = "=0.14.9"
prost = "=0.14.4"
clap = { version = "=4.6.7", features = ["derive"] }
tracing = "=0.1.44"
tracing-subscriber = { version = "=0.3.23", features = ["env-filter", "json"] }
minifb = "=0.29.0"
hound = "=3.5.1"
alsa = "=0.12.1"
rpi-led-matrix = "=0.4.0"
