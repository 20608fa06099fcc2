[package]
name = "kd3005p"
version = "0.1.0"
edition = "2021"
publish = false

[dependencies]
serialport = { version = "4", default-features = false }
druid = "0.7"
