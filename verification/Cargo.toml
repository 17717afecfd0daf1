[package]
name = "state_addressing"
version = "0.1.0"
edition = "2021"
publish = false

[dependencies]
sha2 = "=0.8.2"
transact = "=0.2.4"
