[package]
name = "scope_source"
version = "0.1.0"
edition = "2021"
publish = false

[dependencies]
cstr = "*"
log = "*"
log-panics = "*"
obs-sys = "*"
smol = "*"
smol-timeout = "*"
