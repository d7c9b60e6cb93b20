[package]
name = "kindle_button_mapper"
version = "0.1.0"
edition = "2021"
publish = false

[dependencies]
configparser = "3"
evdev = "0.12"
log = "0.4"
env_logger = "0.11"
nix = { version = "0.27", features = ["inotify", "signal"] }
