[package]
name = "elevator_dispatch"
version = "0.1.0"
edition = "2021"
publish = false

[dependencies]
crossbeam = "*"
crossbeam-utils = "*"
futures = "*"
work-queue = "*"
