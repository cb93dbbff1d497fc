[package]
name = "apub_post"
version = "0.1.0"
edition = "2021"
publish = false

[dependencies]
activitystreams = "*"
comrak = { version = "*", default-features = false }
regex = "*"
url = "*"
