[package]
name = "ini2command"
version = "0.1.0"
edition = "2021"
publish = false

[dependencies]
encoding_rs = "0.8"
codepage = "0.1"
clap = "2"
rust-ini = "*"
string-error = "*"
