[package]
name = "dodge_the_creeps"
version = "0.1.0"
edition = "2021"
publish = false

[dependencies]
godot = "0.4"
rand = "=0.9.5"
