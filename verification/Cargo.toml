[package]
name = "drone_macros"
version = "0.1.0"
edition = "2021"
publish = false

[dependencies]
heck = "0.4"
Inflector = { version = "0.11", default-features = false }
syn = { version = "1", features = ["full"] }
quote = "1"
proc-macro2 = "1"
drone-config = "*"
