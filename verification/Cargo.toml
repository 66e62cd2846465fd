[package]
name = "container_pid"
version = "0.1.0"
edition = "2021"
publish = false

[dependencies]
libc = "0.2"
anyhow = "1"
simple-error = "0.3"
