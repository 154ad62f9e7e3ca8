[package]
name = "pallet_treasury"
version = "0.1.0"
edition = "2021"
publish = false

[dependencies]
frame-support = "*"
frame-system = "*"
log = "0.4"
parity-scale-codec = { version = "3", features = ["derive", "max-encoded-len"] }
scale-info = { version = "2", features = ["derive"] }
serde = { version = "1", features = ["derive"] }
sp-runtime = "*"
