[package]
name = "mls_mpm"
version = "0.1.0"
edition = "2021"
publish = false

[dependencies]
bon = "=3.10.3"
bytemuck = "=1.25.2"
cubecl = { version = "=0.9.0", default-features = false, features = ["std"] }
color-eyre = { version = "=0.6.5", default-features = false }
