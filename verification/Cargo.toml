[package]
name = "rcore_os"
version = "0.1.0"
edition = "2021"
publish = false

[dependencies]
customizable-buddy = "*"
hashbrown = "0.14"
log = "0.4"
page-table = "*"
riscv = "0.10"
spin = "0.9"
