[package]
name = "fixed_vec"
version = "0.1.0"
edition = "2021"
publish = false

[dependencies]
orx-pinned-vec = "*"
orx-concurrent-iter = "*"
orx-iterable = "*"
orx-pseudo-default = "*"
