[package]
name = "bracketlint"
version = "0.1.0"
edition = "2021"
publish = false

[dependencies]
anyhow = "1"
argfile = "*"
clap = { version = "4", features = ["derive"] }
colored = "*"
globset = "*"
ignore = "*"
index_vec = "*"
itertools = "*"
log = "*"
once_cell = "1"
parking_lot = "*"
replace_with = "*"
thin-vec = "*"
wild = "*"
