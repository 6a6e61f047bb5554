[package]
name = "xregs1024"
version = "0.1.0"
edition = "2021"
publish = false

[dependencies]
openvm-instructions = "*"
openvm-stark-backend = "*"
openvm-transpiler = "*"
