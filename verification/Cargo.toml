[package]
name = "monte_carlo_pi"
version = "0.1.0"
edition = "2021"
publish = false

[dependencies]
rand = "0.7"
piston_window = "*"
image = "*"
find_folder = "*"
