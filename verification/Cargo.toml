[package]
name = "trackr"
version = "0.1.0"
edition = "2021"
publish = false

[dependencies]
bitflags = "2"
darling = "0.20"
proc-macro2 = "1"
quote = "1"
syn = { version = "2", features = ["full"] }
