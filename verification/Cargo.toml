[package]
name = "stasis"
version = "0.1.0"
edition = "2021"
publish = false

[dependencies]
regex = "*"
rune-cfg = "*"
serde_json = "*"
clap = { version = "*", features = ["derive"] }
ctrlc = "*"
dirs = "*"
eyre = "*"
futures = "*"
input = "*"
libc = "*"
mpris = "*"
sysinfo = "*"
tokio = { version = "*", features = ["full"] }
wayland-client = "*"
wayland-protocols = { version = "*", features = ["client", "staging", "unstable"] }
wayland-protocols-misc = { version = "*", features = ["client"] }
zbus = "*"
