[package]
name = "stateful_split_screen"
version = "0.1.0"
edition = "2021"
publish = false

[dependencies]
byteorder = "=1.5.0"
zvariant = { version = "5", features = ["gvariant"] }
dirs = "=4.0.0"
clap = "=2.34.0"
xcb = "=0.9.0"
xcb-util = { version = "=0.3.0", features = ["ewmh"] }
