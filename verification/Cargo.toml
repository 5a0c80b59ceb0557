[package]
name = "ta4r"
version = "0.1.0"
edition = "2021"
publish = false

[dependencies]
rust_decimal = "1"
time = "0.3"
log = "0.4"
thiserror = "*"
num-traits = "0.2"
parking_lot = "*"
