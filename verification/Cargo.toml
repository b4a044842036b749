[package]
name = "rocker"
version = "0.1.0"
edition = "2021"
publish = false

[dependencies]
anyhow = "1"
clap = { version = "4", features = ["derive"] }
dbus = "0.9"
dkregistry = "0.5"
flate2 = "1"
futures = "0.3"
hex = "0.4"
ipnetwork = "0.20"
nix = "0.23"
rand = "0.8"
rtnetlink = "0.9"
sled = "0.34"
tar = "0.4"
tokio = { version = "1", features = ["rt-multi-thread", "macros"] }
