[package]
name = "fwumious_wabbit"
version = "0.1.0"
edition = "2021"
publish = false

[dependencies]
clap = "2"
rustc_apfloat = "*"
serde_json = "1"
