[package]
name = "llhd_playground"
version = "0.1.0"
edition = "2021"
publish = false

[dependencies]
strip-ansi-escapes = "0.1"
iron = "0.6"
tempdir = "0.3"
