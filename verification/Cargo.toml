[package]
name = "cen_core"
version = "0.1.0"
edition = "2021"
publish = false

[dependencies]
blake3 = "=1.8.7"
rand = "=0.8.8"
rand_chacha = "=0.3.1"
aes-soft = "=0.6.4"
aesni = "=0.10.0"
cipher = "=0.2.5"
generic-array = "=0.14.9"
