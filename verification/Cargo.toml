[package]
name = "musium"
version = "0.1.0"
edition = "2021"
publish = false

[dependencies]
chrono = "0.4"
claxon = "*"
crossbeam = "*"
nanorand = "*"
num_cpus = "1"
sqlite = "*"
