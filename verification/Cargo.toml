[package]
name = "movebox"
version = "0.1.0"
edition = "2021"
publish = false

[dependencies]
piston_window = "=0.120.0"
conrod_core = "=0.76.1"
conrod_piston = "=0.76.1"
specs = { version = "=0.16.1", features = ["shred-derive"] }
specs-derive = "=0.4.1"
find_folder = "=0.3.0"
