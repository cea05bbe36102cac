[package]
name = "validator_history"
version = "0.1.0"
edition = "2021"
publish = false

[dependencies]
quasar-lang = "*"
pinocchio = "*"
