[package]
name = "cendash"
version = "0.1.0"
edition = "2021"
publish = false

[dependencies]
regex = "1"
yew = "0.9"
stdweb = "0.4"
failure = "0.1"
serde = "1"
serde_derive = "1"
