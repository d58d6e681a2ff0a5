[package]
name = "atat"
version = "0.1.0"
edition = "2021"
publish = false

[dependencies]
bbqueue = "0.5"
bincode = { version = "=2.0.1", default-features = false, features = ["derive"] }
embedded-io = "=0.6.1"
embassy-time = "=0.5.1"
heapless = "=0.8.0"
thiserror = "=1.0.69"
