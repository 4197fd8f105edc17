[package]
name = "leveldb_py"
version = "0.1.0"
edition = "2021"
publish = false

[dependencies]
db-key = "0.0.5"
leveldb = "0.8"
leveldb-sys = "2"
pyo3 = "0.23"
