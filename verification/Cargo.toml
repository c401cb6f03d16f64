[package]
name = "jerry"
version = "0.1.0"
edition = "2021"
publish = false

[dependencies]
clap = "3"
env_logger = "*"
log = "0.4"
mouse-rs = "*"
structopt = "0.3"
xrandr = "*"
