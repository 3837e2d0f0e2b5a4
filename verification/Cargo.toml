[package]
name = "event_runner"
version = "0.1.0"
edition = "2021"
publish = false

[dependencies]
instant = "0.1"
