[package]
name = "dylib_mitm"
version = "0.1.0"
edition = "2021"
publish = false

[dependencies]
pelite = "=0.10.0"
dataview = "=1.1.0"
libloading = "=0.8.9"
syn = { version = "=1.0.109", features = ["full"] }
quote = "=1.0.47"
proc-macro2 = "=1.0.107"
darling = "=0.14.4"
proc-macro-error = "=1.0.4"
