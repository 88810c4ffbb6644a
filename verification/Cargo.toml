[package]
name = "baseunits-rs"
version = "0.1.0"
edition = "2021"
publish = false

[dependencies]
bigdecimal = "*"
chrono = "0.4"
iso-4217 = "*"
num = "0.4"
num-bigint = "0.4"
rust_decimal = "1"
rust-fp-categories = "*"
