[package]
name = "rment"
version = "0.1.0"
edition = "2021"
publish = false

[dependencies]
path-dedot = "=3.1.1"
directories = "=4.0.1"
clap = "=2.34.0"
log = "=0.4.34"
fern = "=0.6.2"
indicatif = "=0.17.11"
colored = "=2.2.0"
quit = "*"
