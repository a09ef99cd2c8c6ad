[package]
name = "barber_shop"
version = "0.1.0"
edition = "2021"
publish = false

[dependencies]
chrono = "*"
rand = "*"
sorted-vec = "*"
