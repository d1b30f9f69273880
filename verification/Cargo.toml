[package]
name = "patina_performance"
version = "0.1.0"
edition = "2021"
publish = false

[dependencies]
r-efi = "=7.1.0"
log = "=0.4.34"
spin = "=0.12.3"
aarch64-cpu = "=11.2.0"
