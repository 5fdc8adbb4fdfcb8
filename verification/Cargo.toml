[package]
name = "avm2_core"
version = "0.1.0"
edition = "2021"
publish = false

[dependencies]
gc-arena = "0.2"
swf = { version = "*", default-features = false }
log = "0.4"
