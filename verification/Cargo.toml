[package]
name = "worker_security"
version = "0.1.0"
edition = "2021"
publish = false

[dependencies]
landlock = "0.2.0"
libc = "0.2"
log = "0.4"
rand = "0.8.5"

[dev-dependencies]
tempfile = "3"
