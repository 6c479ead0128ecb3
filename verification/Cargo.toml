[package]
name = "smallvectune"
version = "0.1.0"
edition = "2021"
publish = false

[dependencies]
smallvec = { version = "=1.16.2", features = ["const_generics"] }
crossbeam-channel = "=0.5.17"
lazy_static = "=1.5.1"

[dev-dependencies]
crossbeam-utils = "*"
