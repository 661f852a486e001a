[package]
name = "julia_set"
version = "0.1.0"
edition = "2021"
publish = false

[dependencies]
hsl = "=0.1.1"
num = "=0.4.3"
image = "=0.25.10"
clap = "=4.6.7"
csv = "=1.4.0"
crossbeam = "=0.8.5"
