[package]
name = "brix"
version = "0.4.1"
edition = "2021"
publish = false

[dependencies]
clap = "2"
colored = "*"
convert_case = "0.6"
dialoguer = "*"
difflib = "0.4"
execute = "0.2"
fancy-regex = "*"
handlebars = "4"
home = "*"
log = "0.4"
serde = { version = "1", features = ["derive"] }
serde_yaml = "*"
simple_logger = "*"
titlecase = "*"
