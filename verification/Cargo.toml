[package]
name = "kube_dash_core"
version = "0.1.0"
edition = "2021"
publish = false

[dependencies]
regex = "*"
crossterm = "*"
ratatui = "*"
log = "*"
log4rs = "*"
