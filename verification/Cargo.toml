[package]
name = "typst_cli"
version = "0.1.0"
edition = "2021"
publish = false

[dependencies]
anyhow = "1"
clap = { version = "4", features = ["derive"] }
codespan-reporting = "0.11"
once_cell = "1"
termcolor = "1"
