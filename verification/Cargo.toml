[package]
name = "tacklebox"
version = "0.1.0"
edition = "2021"
publish = false

[dependencies]
etherparse = "0.9"
rand = "0.7"
structopt = "0.3"
thiserror = "1"
