[package]
name = "edwardium_logger"
version = "0.1.0"
edition = "2021"
publish = false

[dependencies]
log = { version = "0.4", features = ["std"] }
termion = "1.5"
embedded-serial = "0.5"
