[package]
name = "ps4_bridge"
version = "0.1.0"
edition = "2021"
publish = false

[dependencies]
async-std = "=1.13.2"
safe_drive = "=0.4.3"
