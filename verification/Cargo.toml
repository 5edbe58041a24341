[package]
name = "rp2040-servo-pio"
version = "0.1.0"
edition = "2021"
publish = false

[dependencies]
embassy-rp = { version = "*", features = ["rp2040"] }
defmt-rtt = "*"
panic-probe = "*"
