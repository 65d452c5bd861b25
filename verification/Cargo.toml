[package]
name = "psp22_ink"
version = "0.1.0"
edition = "2021"
publish = false

[dependencies]
ink = { version = "5", features = ["std"] }
parity-scale-codec = { version = "3", features = ["derive"] }
scale-info = { version = "2", features = ["derive"] }
