[package]
name = "fractal"
version = "0.1.0"
edition = "2021"
publish = false

[dependencies]
num_cpus = "1"
clap = "4"
log = "0.4"
simple_logger = "*"
time = "0.3"
num = "0.4"
rand = "0.8"
image = { version = "*", default-features = false }
piston_window = "*"
