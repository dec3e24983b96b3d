[package]
name = "cbpf_ir"
version = "0.1.0"
edition = "2021"
publish = false

[dependencies]
pcap = "=2.5.0"
structopt = "=0.3.26"
error-chain = "=0.12.4"
