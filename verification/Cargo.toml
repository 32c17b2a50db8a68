[package]
name = "rnote"
version = "0.1.1"
edition = "2021"
publish = false

[dependencies]
anyhow = "1"
chrono = "0.4"
clap = "2.33"
dialoguer = "0.8"
fstream = "0.1"
walkdir = "2"
