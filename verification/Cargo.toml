[package]
name = "conc_map_bench"
version = "0.1.0"
edition = "2021"
publish = false

[dependencies]
bustle = "*"
crossbeam-epoch = "*"
csv = "*"
num_cpus = "*"
structopt = "*"
