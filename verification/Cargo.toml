[package]
name = "metal_hal"
version = "0.1.0"
edition = "2021"
publish = false

[dependencies]
arrayvec = "0.7"
block = "0.1.6"
hashbrown = { version = "0.15", default-features = false, features = ["default-hasher"] }
log = "0.4"
metal = { version = "0.32", default-features = false }
objc = "0.2.5"
parking_lot = "0.12"
profiling = { version = "1", default-features = false }
raw-window-handle = "0.6"
