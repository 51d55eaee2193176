[package]
name = "crabcan"
version = "0.1.0"
edition = "2021"
publish = false

[dependencies]
cgroups-rs = "0.2"
libc = "0.2"
log = "0.4"
nix = "0.22"
rlimit = "0.6"

[dev-dependencies]
scan_fmt = "0.2"
