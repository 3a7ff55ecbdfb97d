[package]
name = "cptb"
version = "0.1.0"
edition = "2021"
publish = false

[dependencies]
clap = "2"
dirs = "*"
git2 = { version = "*", default-features = false }
handlebars = "*"
rust-embed = "*"
serde = "1"
serde_derive = "1"
serde_json = "1"
tempdir = "0.3"
ureq = "2"
