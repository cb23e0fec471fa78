[package]
name = "hall_matrix"
version = "0.1.0"
edition = "2021"
publish = false

[dependencies]
embedded-storage = "*"
heapless = "=0.8.0"
