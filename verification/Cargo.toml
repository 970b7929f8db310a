[package]
name = "edp_tui"
version = "0.1.0"
edition = "2021"
publish = false

[dependencies]
unicode-width = "0.2"
unicode-segmentation = "1"
ratatui = "0.29"
crossterm = "0.28"
