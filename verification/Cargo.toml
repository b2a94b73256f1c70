[package]
name = "ess_decoder"
version = "0.1.0"
edition = "2021"

[dependencies]
encoding_rs = "*"
