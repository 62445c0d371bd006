[package]
name = "gui"
version = "0.1.0"
edition = "2021"

[dependencies]
glium = "=0.25.1"
