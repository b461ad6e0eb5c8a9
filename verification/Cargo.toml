[package]
name = "decode_ceph"
version = "0.1.0"
edition = "2021"
publish = false

[dependencies]
byteorder = "1"
clap = "2"
nom = "7.1"
pcap = "*"
time = "0.1"
users = "0.11"
uuid = "1"
