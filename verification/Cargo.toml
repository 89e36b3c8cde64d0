[package]
name = "query_analysis"
version = "0.1.0"
edition = "2021"
publish = false

[dependencies]
sqlite3-parser = "=0.16.0"
fallible-iterator = "=0.3.0"
