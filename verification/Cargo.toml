[package]
name = "zcore"
version = "0.1.0"
edition = "2021"
publish = false

[dependencies]
num_cpus = "=1.17.0"
trapframe = "=0.11.0"
os-xtask-utils = "=0.0.0"
