[package]
name = "tuifeed"
version = "0.1.0"
edition = "2021"
publish = false

[dependencies]
chrono = "*"
dirs = "*"
tuirealm = "*"
tui-realm-stdlib = "*"
