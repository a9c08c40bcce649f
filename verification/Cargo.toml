[package]
name = "external_editor"
version = "0.1.0"
edition = "2021"
publish = false

[dependencies]
color-eyre = "0.6"
shlex = "1.3"
tempfile = "3"
thiserror = "2"
tokio = { version = "1", default-features = false, features = ["process"] }
