[package]
name = "c64-assembler"
version = "0.1.0"
edition = "2021"
publish = false

[dependencies]
c64-assembler-6502 = "*"

[dev-dependencies]
mos6502 = "*"
