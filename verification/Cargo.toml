[package]
name = "interflow"
version = "0.1.0"
edition = "2021"
publish = false

[dependencies]
ndarray = "0.16"
rtrb = "0.3"
fixed-resample = "*"
thiserror = "2"
anyhow = "1"
log = "0.4"
