[package]
name = "dancy"
version = "0.1.0"
edition = "2021"
publish = false

[dependencies]
flutter_rust_bridge = "2"
log = "0.4"
parking_lot = "0.12"
