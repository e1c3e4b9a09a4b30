[package]
name = "key_lib"
version = "0.1.0"
edition = "2021"
publish = false

[dependencies]
heapless = "0.8"
embassy-sync = "*"
embassy-time = "*"
embassy-futures = "*"
embassy-usb = "*"
sequential-storage = "*"
embedded-storage-async = "*"
