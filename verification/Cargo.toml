[package]
name = "gradient_sampler"
version = "0.1.0"
edition = "2021"
publish = false

[dependencies]
rand = "0.8"

[dev-dependencies]
quickcheck = "1"
