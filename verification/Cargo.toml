[package]
name = "key_binder"
version = "0.1.0"
edition = "2021"
publish = false

[dependencies]
clap = "=3.2.25"
ctrlc = "=3.2.5"
env_logger = "=0.9.3"
input = "=0.8.3"
libc = "=0.2.190"
log = "=0.4.34"
nix = { version = "=0.24.3", features = ["poll"] }
