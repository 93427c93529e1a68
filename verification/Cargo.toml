[package]
name = "wezterm_commands"
version = "0.1.0"
edition = "2021"
publish = false

[dependencies]
ordered-float = "4"
log = "0.4"
