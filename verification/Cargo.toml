[package]
name = "axvcpu"
version = "0.1.0"
edition = "2021"
publish = false

[dependencies]
axaddrspace = "=0.5.12"
axerrno = "=0.2.2"
axvisor_api = "=0.5.12"
percpu = "*"
