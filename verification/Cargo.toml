[package]
name = "gmath"
version = "0.1.0"
edition = "2021"
publish = false

[dependencies]
rustc_apfloat = "*"
libm = "*"
bytemuck = "*"
glium = "*"
obj-rs = "*"
