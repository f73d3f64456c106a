[package]
name = "scoped_temp"
version = "0.1.0"
edition = "2021"
publish = false

[dependencies]
log = "0.4"
remove_dir_all = "*"
