[package]
name = "eqviz"
version = "0.1.0"
edition = "2021"
publish = false

[dependencies]
anyhow = "*"
biquad = "*"
crossterm = "*"
ratatui = "*"
rodio = "*"
rustfft = "*"
