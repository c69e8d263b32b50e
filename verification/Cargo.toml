[package]
name = "poclib"
version = "0.1.0"
edition = "2021"
publish = false

[dependencies]
statrs = "*"
thiserror = "*"
uniffi = "*"
