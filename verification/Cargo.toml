[package]
name = "viaduct"
version = "0.4.0"
edition = "2021"
publish = false

[dependencies]
bytemuck = "1"
interprocess = "1"
libc = "0.2"
parking_lot = "0.12"
uuid = { version = "1", features = ["v4"] }
