[package]
name = "ps_protocol"
version = "0.1.0"
edition = "2021"
publish = false

[dependencies]
fnv = "=1.0.7"
ps-buffer = "=0.1.0-23"
rkyv = "=0.8.18"
thiserror = "=2.0.21"
