[package]
name = "crystal-vk"
version = "0.2.1"
edition = "2021"
publish = false

[dependencies]
ash = "0.38"
ash-window = "0.13"
raw-window-handle = "0.6"
