[package]
name = "shoddy_sha"
version = "0.1.0"
edition = "2021"

[dependencies]
primal = "0.3"
sha2 = "0.10"

[dev-dependencies]
rand = "0.8"
