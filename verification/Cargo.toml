[package]
name = "demoquad"
version = "0.1.0"
edition = "2021"
publish = false

[dependencies]
frame-support = "*"
frame-system = "*"
parity-scale-codec = { version = "*", features = ["derive"] }
scale-info = { version = "*", features = ["derive"] }
sp-runtime = "*"
sp-std = "*"

[dev-dependencies]
sp-core = "*"
