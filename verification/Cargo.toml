[package]
name = "primeorder"
version = "0.1.0"
edition = "2021"
publish = false

[dependencies]
bytemuck = "1"
elliptic-curve = "0.13"
risc0-bigint2 = "*"
