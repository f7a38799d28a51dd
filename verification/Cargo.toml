[package]
name = "rootbeer-core"
version = "0.1.0"
edition = "2021"
publish = false

[dependencies]
clap = { version = "4", features = ["derive"] }
libc = "0.2"
mlua = { version = "0.11", features = ["luau"] }
