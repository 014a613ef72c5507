[package]
name = "czsc"
version = "0.1.0"
edition = "2021"
publish = false

[dependencies]
chrono = "0.4"
csv = "1"
rand = "0.8"
structopt = "0.3"
