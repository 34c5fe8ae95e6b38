[package]
name = "relm_bar"
version = "0.1.0"
edition = "2021"
publish = false

[dependencies]
relm4 = "0.9"
gtk4 = "0.9"
log = "0.4"
