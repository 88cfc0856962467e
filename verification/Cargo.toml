[package]
name = "sbepistats"
version = "0.1.0"
edition = "2021"
publish = false

[dependencies]
bevy = { version = "=0.18.1", default-features = false }
bevy_auto_plugin = { version = "=0.10.0", default-features = false }
derive-where = "=1.7.0"
num-traits = "=0.2.19"
proc-macro2 = "=1.0.107"
quote = "=1.0.47"
syn = { version = "=2.0.119", features = ["full"] }
