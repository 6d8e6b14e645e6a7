[package]
name = "keyboard_shared"
version = "0.1.0"
edition = "2021"
publish = false

[dependencies]
fnv = "1.0"
heapless = "0.7"
embassy-sync = "*"
embassy-time = "*"
embassy-futures = "*"

[dev-dependencies]
postcard = "0.7"
