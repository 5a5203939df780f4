[package]
name = "c2pa"
version = "0.1.0"
edition = "2021"
publish = false

[dependencies]
thiserror = "*"

[dev-dependencies]
lopdf = { version = "*", default-features = false }
