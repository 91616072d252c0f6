[package]
name = "bl702-hal"
version = "0.1.0"
edition = "2021"
publish = false

[dependencies]
bl702-pac = "=0.0.3"
embedded-hal = { version = "=0.2.7", features = ["unproven"] }
embedded-time = "=0.12.1"
nb = "=1.1.0"
riscv = "=0.10.1"
