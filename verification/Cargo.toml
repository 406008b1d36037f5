[package]
name = "nat_discovery"
version = "0.1.0"
edition = "2021"
publish = false

[dependencies]
async-std = "*"
local-ip-address = "*"
