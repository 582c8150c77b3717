[package]
name = "traffic_light"
version = "0.1.0"
edition = "2021"
publish = false

[dependencies]
sails-rs = "0.6.3"
