[package]
name = "d2b-clip-picker"
version = "0.2.0"
edition = "2021"
publish = false

[dependencies]
base64 = "0.22"
clap = "4"
env_logger = "0.11"
glib = "*"
gtk4 = "*"
gtk4-layer-shell = "*"
libadwaita = "*"
log = "0.4"
rustix = { version = "1", features = ["event", "fs"] }
serde = { version = "1", features = ["derive"] }
serde_json = "1"
wayland-client = "0.31"
wayland-protocols = { version = "0.32", features = ["client", "staging"] }
wayland-protocols-wlr = { version = "0.3", features = ["client"] }
