[package]
name = "oikos"
version = "0.1.0"
edition = "2021"
publish = false

[dependencies]
bpaf = "=0.9.28"
dotenvy = "=0.15.7"
env_logger = "=0.10.2"
glob = "=0.3.4"
humantime = "=2.4.0"
libc = "=0.2.190"
log = "=0.4.34"
nix = "=0.26.4"
tz-rs = "=0.7.3"
tzdb = "=0.7.3"
