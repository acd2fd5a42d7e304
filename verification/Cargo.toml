[package]
name = "apng"
version = "0.1.0"
edition = "2021"
publish = false

[dependencies]
flate2 = "=1.1.10"
rayon = "=1.12.0"

[dev-dependencies]
png = "*"
