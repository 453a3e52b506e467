[package]
name = "lens_on"
version = "0.1.0"
edition = "2021"
publish = false

[dependencies]
alloy = { version = "*", default-features = false, features = ["std", "contract", "providers", "network", "sol-types"] }
thiserror = "*"
