[package]
name = "graphql_cst"
version = "0.1.0"
edition = "2021"
publish = false

[dependencies]
rowan = "=0.15.19"
arbitrary = "=1.5.0"
apollo-encoder = { version = "=0.3.4", default-features = false }
