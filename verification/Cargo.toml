[package]
name = "paddington"
version = "0.1.0"
edition = "2021"
publish = false

[dependencies]
log = "0.4"
regex = "1"
stderrlog = "0.5"
structopt = "0.3"
