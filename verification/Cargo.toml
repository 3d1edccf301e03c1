[package]
name = "finde_rs"
version = "0.1.3"
edition = "2021"
publish = false

[dependencies]
anyhow = "1"
clap-verbosity-flag = "0.3"
crossbeam = "0.8"
log = "0.4"
num_cpus = "1"
simple_logger = "*"
structopt = "0.3"
tantivy = { version = "*", default-features = false, features = ["mmap"] }
threadpool = "1.8"
walkdir = "2"
