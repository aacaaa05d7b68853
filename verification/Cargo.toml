[package]
name = "tantivy_ingest"
version = "0.1.0"
edition = "2021"
publish = false

[dependencies]
tantivy = "0.22"
crossbeam-channel = "0.5"
time = "0.3"
clap = "4"
