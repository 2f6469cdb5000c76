[package]
name = "dwarf-extractor"
version = "0.1.0"
edition = "2021"
publish = false

[dependencies]
anyhow = "1"
clap = "3"
flate2 = "1"
goblin = "0.4"
scroll = "0.10"
