[package]
name = "dmg_core"
version = "0.1.0"
edition = "2021"
publish = false

[dependencies]
anyhow = { version = "=1.0.104", default-features = false }
crankstart = "=0.1.2"
crankstart-sys = "=0.1.2"
euclid = { version = "=0.20.14", default-features = false, features = ["libm"] }
