[package]
name = "task_recorder"
version = "0.1.0"
edition = "2021"
publish = false

[dependencies]
chrono = "0.4"
log = "0.4"
rdev = "0.5"
simple_logger = { version = "5", default-features = false }
