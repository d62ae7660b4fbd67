[package]
name = "snake_matrix"
version = "0.1.0"
edition = "2021"
publish = false

[dependencies]
hash32 = "=0.3.1"
heapless = "=0.9.3"
micro_rand = "=0.0.1"
