[package]
name = "minecraft-launcher-launcher"
version = "0.1.0"
edition = "2021"
publish = false

[dependencies]
cnproc = "=0.2.1"
colored = "=3.1.1"
home = "=0.5.12"
mimalloc = "=0.1.52"
nix = { version = "=0.31.3", features = ["signal", "process"] }
sudo = "=0.6.0"
sysinfo = "=0.37.2"
