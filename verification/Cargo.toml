[package]
name = "papyrus"
version = "0.1.0"
edition = "2021"
publish = false

[dependencies]
cmdtree = "=0.10.1"
libloading = "=0.9.0"
mortal = "=0.2.4"
