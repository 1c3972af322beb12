[package]
name = "input_macro"
version = "0.1.0"
edition = "2021"
publish = false

[dependencies]
arboard = "=3.7.0"
crossbeam-channel = "=0.5.17"
env_logger = "=0.11.11"
log = "=0.4.34"
rdev = { version = "=0.5.3", features = ["unstable_grab"] }
rhai = "=1.27.0"
