[package]
name = "mpris_bridge"
version = "0.1.0"
edition = "2021"
publish = false

[dependencies]
block2 = "=0.6.2"
libc = "=0.2.191"
log = "=0.4.35"
mpris-server = "=0.11.0"
objc2 = "=0.6.5"
objc2-foundation = "=0.3.2"
objc2-media-player = "=0.3.2"
see = "=0.1.2"
