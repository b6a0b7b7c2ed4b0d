[package]
name = "elf_cleaner"
version = "0.1.0"
edition = "2021"
publish = false

[dependencies]
anyhow = "=1.0.104"
object = { version = "=0.36.7", default-features = false, features = ["build"] }
