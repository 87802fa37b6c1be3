[package]
name = "vst3_host"
version = "0.1.0"
edition = "2021"
publish = false

[dependencies]
smallvec = "1"
vst3 = "*"
libloading = "0.8"
crossbeam-channel = "0.5"
parking_lot = "0.12"
thiserror = "2"
