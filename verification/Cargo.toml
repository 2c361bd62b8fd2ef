[package]
name = "ones_riscv"
version = "0.1.0"
edition = "2021"
publish = false

[dependencies]
riscv = "=0.16.1"
sbi-rt = "=0.0.4"
spin = "=0.12.3"
lazy_static = "=1.5.1"
log = "=0.4.35"
bit_field = "=0.10.3"
