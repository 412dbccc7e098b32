[package]
name = "arto"
version = "0.1.0"
edition = "2021"
publish = false

[dependencies]
pulldown-cmark = "=0.13.4"
lol_html = "=3.0.1"
base64 = "=0.23.1"
sha2 = "*"
