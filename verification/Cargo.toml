[package]
name = "trouble_host"
version = "0.1.0"
edition = "2021"
publish = false

[dependencies]
embedded-io = "0.6"
rand_core = "0.6"
bt-hci = "*"
