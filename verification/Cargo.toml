[package]
name = "output_picker"
version = "0.1.0"
edition = "2021"
publish = false

[dependencies]
iced = { version = "0.13", default-features = false, features = ["canvas", "tiny-skia"] }
smithay-client-toolkit = { version = "0.19", default-features = false }
