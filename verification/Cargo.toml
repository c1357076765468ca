[package]
name = "aqua_backend"
version = "0.1.0"
edition = "2021"
publish = false

[dependencies]
async-trait = "0.1"
dashmap = "6"
eyre = "0.6"
indexmap = "2"
itertools = "0.14"
log = "0.4"
regex = "1"
