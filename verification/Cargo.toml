[package]
name = "atomic_bitfield"
version = "0.1.0"
edition = "2021"
publish = false

[dependencies]
bit_field = "0.10"

[dev-dependencies]
quickcheck = { version = "1", default-features = false }
