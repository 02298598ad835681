[package]
name = "network_service"
version = "0.1.0"
edition = "2021"
publish = false

[dependencies]
rand = "0.8"
async-std = "1"
futures = "0.3"
futures-timer = "3"
parking_lot = "0.12"
