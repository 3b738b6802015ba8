[package]
name = "orx_concurrent_bag"
version = "0.1.0"
edition = "2021"
publish = false

[dependencies]
orx-pinned-concurrent-col = "2"
orx-pinned-vec = "3"
orx-split-vec = "3"
orx-fixed-vec = "3"
