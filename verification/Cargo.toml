[package]
name = "rgb_schemas"
version = "0.1.0"
edition = "2021"
publish = false

[dependencies]
amplify = "=4.8.1"
rgb-strict-types = "=1.0.5"
rgb-aluvm = "=0.11.1"
rgb-ops = "=0.11.1"
