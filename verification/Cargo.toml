[package]
name = "cocoa-utils"
version = "0.1.0"
edition = "2021"
publish = false

[dependencies]
cocoa = "0.24"
crossbeam = "0.8"
lazy_static = "1.4"
libc = "0.2"
objc = "0.2"
proc-macro2 = "1.0"
quote = "1.0"
syn = { version = "1.0", features = ["full"] }
