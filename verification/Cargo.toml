[package]
name = "overwatch"
version = "0.1.0"
edition = "2021"
publish = false

[dependencies]
anstyle = "1"
anyhow = "1"
bitvec = "1"
clap = { version = "4", features = ["derive"] }
colored = "2"
hex = "0.4"
macaddr = "1"
pretty-hex = "0.4"
