[package]
name = "embassy-ieee802154"
version = "0.1.0"
edition = "2021"
publish = false

[dependencies]
dot15d4 = "=0.1.2"
embassy-net-driver = "=0.2.0"
embassy-sync = "=0.8.0"
embedded-hal-async = "=1.0.0"
rand_core = "=0.6.4"
