[package]
name = "membarrier2"
version = "0.1.0"
edition = "2021"
publish = false

[dependencies]
libc = "=0.2.191"
crossbeam-utils = "=0.8.23"
ctor = "=1.0.13"
libc-print = "=0.5.0"
windows-sys = { version = "=0.61.2", features = ["Win32_System_Threading"] }
loom = { version = "0.7", default-features = false }
