[package]
name = "reaction_pin"
version = "0.1.0"
edition = "2021"
publish = false

[dependencies]
serenity = "0.8"
