[package]
name = "vibebar"
version = "0.1.0"
edition = "2021"
publish = false

[dependencies]
tokio = { version = "=1.54.1", features = ["sync", "rt-multi-thread", "process", "time", "macros"] }
chrono = "=0.4.45"
serde_json = "=1.0.154"
system-tray = "=0.8.9"
gtk4 = "=0.11.5"
gdk4 = "=0.11.5"
glib = "=0.22.10"
cairo-rs = "=0.22.9"
gtk4-layer-shell = "=0.8.1"
futures = "=0.3.34"
futures-util = "=0.3.34"
netlink-packet-route = "=0.33.0"
rtnetlink = "=0.23.0"
niri-ipc = "=26.4.0"
nix = { version = "=0.31.3", features = ["fs", "process"] }
libpulse-binding = "=2.30.1"
reqwest = { version = "=0.13.5", features = ["blocking", "json"] }
swayipc-async = "=3.0.0"
sysinfo = "=0.39.6"
zbus = "=6.1.0"
mpris = "=2.1.0"
