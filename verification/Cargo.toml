[package]
name = "zeroc"
version = "0.1.0"
edition = "2021"
publish = false

[dependencies]
bip39 = "*"
substrate-bip39 = "*"
hex = "*"
rand = "*"
