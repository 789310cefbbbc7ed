[package]
name = "panoview"
version = "0.1.0"
edition = "2021"
publish = false

[dependencies]
memchr = "2"
elementtree = "1"
glium = "0.31"
image = "0.24"
