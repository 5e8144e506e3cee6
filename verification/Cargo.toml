[package]
name = "rquickjs"
version = "0.1.0"
edition = "2021"
publish = false

[dependencies]
rquickjs-sys = "=0.0.4"
quick-error = "=2.0.1"
