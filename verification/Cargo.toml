[package]
name = "file_hashing"
version = "0.1.0"
edition = "2021"
publish = false

[dependencies]
assert_fs = "1"
blake2 = "0.10"
data-encoding = "2"
digest = "0.10"
rand = "0.8"
rayon = "1"
walkdir = "2"
