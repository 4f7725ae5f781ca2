[package]
name = "fibers_global"
version = "0.1.0"
edition = "2021"
publish = false

[dependencies]
fibers = "0.1"
futures = "0.1"
lazy_static = "1"
num_cpus = "1"
