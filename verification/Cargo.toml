[package]
name = "zeroconf"
version = "0.1.0"
edition = "2021"
publish = false

[dependencies]
avahi-sys = "*"
bonjour-sys = "*"
libc = "0.2"
log = "0.4"
serde = { version = "1", features = ["derive"] }
thiserror = "1"
