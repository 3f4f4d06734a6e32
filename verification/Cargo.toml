[package]
name = "midi_gun"
version = "0.1.0"
edition = "2021"
publish = false

[dependencies]
async-trait = "0.1"
macroquad = "0.3"
midir = "*"
miniquad = "0.3"
