[package]
name = "mimic"
version = "0.1.0"
edition = "2021"
publish = false

[dependencies]
jni = { version = "*", features = ["invocation"] }
rustc-serialize = "*"
terminal = "*"
