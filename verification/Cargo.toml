[package]
name = "string2path"
version = "0.1.0"
edition = "2021"
publish = false

[dependencies]
ttf-parser = "=0.25.1"
lyon = "=1.0.19"
fontdb = "=0.24.0"
rusttype = "=0.9.3"
num-traits = "*"
