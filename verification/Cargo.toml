[package]
name = "crownpositor"
version = "0.1.0"
edition = "2021"
publish = false

[dependencies]
smithay = { version = "=0.7.0", default-features = false }
zbus = "=5.19.0"
thiserror = "=2.0.21"
