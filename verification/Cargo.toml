[package]
name = "sqlite_vacuum"
version = "0.1.0"
edition = "2021"
publish = false

[dependencies]
atty = "0.2"
clap = "2"
console = "*"
crossbeam = "*"
num_cpus = "1"
sqlite = "*"
walkdir = "2"
