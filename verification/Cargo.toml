[package]
name = "midisynth"
version = "0.1.0"
edition = "2021"
publish = false

[dependencies]
cpal = "0.13"
midir = "*"

[dev-dependencies]
wmidi = "4"
