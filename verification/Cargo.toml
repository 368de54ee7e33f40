[package]
name = "record_audio"
version = "0.1.0"
edition = "2021"
publish = false

[dependencies]
cpal = "*"
ctrlc = "*"
dasp = { version = "*", features = ["signal", "interpolate", "interpolate-linear"] }
hound = "*"
