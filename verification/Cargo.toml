[package]
name = "windres"
version = "0.1.0"
edition = "2021"
publish = false

[dependencies]
concat-string = "*"
find-winsdk = "*"
