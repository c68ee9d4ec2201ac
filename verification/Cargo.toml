[package]
name = "branch_panel"
version = "0.1.0"
edition = "2021"
publish = false

[dependencies]
anyhow = "1"
log = "0.4"
time = "0.3"
