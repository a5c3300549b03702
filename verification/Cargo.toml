[package]
name = "kanata_switch"
version = "0.1.0"
edition = "2021"
publish = false

[dependencies]
anyhow = "1"
arraydeque = "0.4"
miette = "5"
thiserror = "1"
