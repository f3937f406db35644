[package]
name = "lnp_node"
version = "0.1.0"
edition = "2021"
publish = false

[dependencies]
amplify = "3"
bitcoin = { version = "0.28", features = ["rand"] }
