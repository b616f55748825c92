[package]
name = "ex_vl_convert"
version = "0.1.0"
edition = "2021"
publish = false

[dependencies]
futures = "0.3"
lazy_static = "1"
rustler = "0.36"
serde_json = "1"
