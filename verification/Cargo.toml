[package]
name = "pipe_receiver"
version = "0.1.0"
edition = "2021"
publish = false

[dependencies]
ockam_core = "*"
