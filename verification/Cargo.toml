[package]
name = "src_dst_clarifier"
version = "0.1.0"
edition = "2021"
publish = false

[dependencies]
kalavor = "*"
thiserror = "*"
