[package]
name = "aether_of_enclaves"
version = "0.1.0"
edition = "2021"
publish = false

[dependencies]
rand = "*"
noise = "*"
piston_window = "*"
find_folder = "*"
