[package]
name = "gpgpu"
version = "0.2.0"
edition = "2021"
publish = false

[dependencies]
wgpu = { version = "=0.14.2", features = ["spirv"] }
bytemuck = "=1.25.2"
futures = "=0.3.34"
parking_lot = "=0.12.5"
thiserror = "=1.0.69"
log = "=0.4.34"
ndarray = "=0.15.6"
