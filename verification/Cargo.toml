[package]
name = "bandersnatch_vrfs"
version = "0.1.0"
edition = "2021"
publish = false

[dependencies]
ark-vrf = { version = "=0.1.1", features = ["bandersnatch", "ring"] }
hex = "=0.4.3"
