[package]
name = "smoldot_flutter"
version = "0.1.0"
edition = "2021"
publish = false

[dependencies]
smoldot-light = { version = "=3.0.0", default-features = false, features = ["std"] }
async-std = "=1.13.2"
flutter_rust_bridge = "=1.82.6"
lazy_static = "=1.5.1"
parking_lot = "=0.12.5"
log = "=0.4.34"
simplelog = "=0.12.2"
