[package]
name = "mlwatch"
version = "0.1.0"
edition = "2021"

[dependencies]
termion = "*"
notify = "*"
