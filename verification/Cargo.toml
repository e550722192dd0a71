[package]
name = "dua_core"
version = "0.1.0"
edition = "2021"
publish = false

[dependencies]
byte-unit = "=3.1.4"
jwalk = "=0.4.0"
