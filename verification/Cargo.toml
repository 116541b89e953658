[package]
name = "smw_patcher"
version = "0.1.0"
edition = "2021"
publish = false

[dependencies]
scraper = "*"
zip = "*"
flips = "*"
tempfile = "*"
crossterm = "*"
tui = "*"
unicode-width = "*"

[dependencies.reqwest]
version = "*"
default-features = false
features = ["blocking"]
