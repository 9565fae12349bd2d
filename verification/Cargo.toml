[package]
name = "transform_lattice"
version = "0.1.0"
edition = "2021"
publish = false

[dependencies]
quick-xml = "=0.37.5"
reqwest = { version = "=0.13.5", default-features = false }
