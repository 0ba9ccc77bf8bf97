[package]
name = "auto_pool"
version = "0.3.3"
edition = "2021"
publish = false

[dependencies]
parking_lot = "0.12"
rand = "0.10"
event-listener = "5.4"
smol = "2"
