[package]
name = "mpv_ipc"
version = "0.1.0"
edition = "2021"
publish = false

[dependencies]
rustc-serialize = "0.3"
rand = "0.8"
