[package]
name = "arrow_typing"
version = "0.1.0"
edition = "2021"
publish = false

[dependencies]
arrow-array = "51.0.0"
arrow-schema = "51.0.0"
half = "2"

[dev-dependencies]
proptest = "1"
