[package]
name = "cdfr_robot"
version = "0.1.0"
edition = "2021"
publish = false

[dependencies]
anyhow = "*"
log = "*"
embedded-io = "*"
embedded-graphics = "*"
esp-idf-hal = "*"
esp-idf-svc = "*"
