[package]
name = "midi_trim"
version = "0.1.0"
edition = "2021"
publish = false

[dependencies]
midly = { version = "=0.5.3", default-features = false, features = ["alloc", "std", "strict"] }
