[package]
name = "trap_dispatch"
version = "0.1.0"
edition = "2021"

[dependencies]
riscv = "*"
