[package]
name = "new_arp_scan"
version = "0.1.0"
edition = "2021"
publish = false

[dependencies]
csv = "1"
