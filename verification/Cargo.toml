[package]
name = "lunchbox_dmx"
version = "0.1.0"
edition = "2021"
publish = false

[dependencies]
artnet_protocol = "*"
dmx-rdm = "=0.0.13-alpha"
anyhow = "*"
log = "*"
