[package]
name = "esperto_wiimote"
version = "0.1.0"
edition = "2021"
publish = false

[dependencies]
esperto = { version = "=0.7.1", features = ["serde"] }
evdevil = { version = "=0.5.0", features = ["tokio", "serde"] }
frozen-collections = "=0.9.3"
futures = "=0.3.34"
nalgebra = "=0.35.0"
ordered-float = "=5.5.1"
serde = { version = "=1.0.229", features = ["derive"] }
serde_yaml = "=0.9.34"
clap = { version = "=4.6.7", features = ["derive"] }
crossterm = { version = "=0.29.0", features = ["event-stream"] }
tokio = { version = "=1.54.1", features = ["rt", "macros", "signal"] }
tokio-udev = "=0.10.0"
udev = "=0.9.3"
