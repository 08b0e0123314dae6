[package]
name = "sicth"
version = "0.1.0"
edition = "2021"
publish = false

[dependencies]
ignore = "0.4"
infer = "0.16"
nucleo = "0.5"
nucleo-matcher = "0.3"
ratatui = "0.29"
open = "5"
