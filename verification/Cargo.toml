[package]
name = "samp_sdk"
version = "0.1.0"
edition = "2021"
publish = false

[dependencies]
encoding_rs = "0.8"
encoding = "0.2"
crossbeam-utils = "0.8"
log = "0.4"
fern = "0.5"
bitflags = "1"
syn = { version = "0.15", features = ["full"] }
quote = "0.6"
proc-macro2 = "0.4"
