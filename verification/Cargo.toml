[package]
name = "shade_tree"
version = "0.1.0"
edition = "2021"
publish = false

[dependencies]
indicatif = "0.15"
minifb = "0.13"
png = "0.16"
rand = "0.7"
rayon = "1"
