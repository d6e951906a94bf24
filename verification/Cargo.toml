[package]
name = "rendit"
version = "0.1.0"
edition = "2021"
publish = false

[dependencies]
serde_json = "=1.0.151"
tera = "=1.20.1"
handlebars = "=6.4.4"
liquid = "=0.26.11"
kstring = "=2.0.0"
clap = "=4.6.7"
log = "=0.4.34"
simplelog = "=0.12.2"
opener = "=0.9.0"
