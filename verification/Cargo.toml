[package]
name = "egrikor"
version = "0.1.0"
edition = "2021"
publish = false

[dependencies]
druid-shell = "*"
piet-common = "*"
