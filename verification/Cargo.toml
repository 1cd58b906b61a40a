[package]
name = "wfetch"
version = "0.1.0"
edition = "2021"
publish = false

[dependencies]
chrono = "*"
clap = { version = "*", features = ["derive"] }
clap_complete = "*"
crossterm = "*"
dirs = "*"
fast_image_resize = "*"
image = "*"
serde = { version = "*", features = ["derive"] }
serde_json = "*"
signal-hook = "*"
sysinfo = "*"
xterm-query = "*"
