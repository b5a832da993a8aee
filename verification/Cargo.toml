[package]
name = "servicepoint_simulator"
version = "0.1.0"
edition = "2021"
publish = false

[dependencies]
clap = { version = "=4.6.7", features = ["derive"] }
env_logger = "=0.11.11"
log = "=0.4.34"
winit = "=0.30.13"
softbuffer = "=0.4.8"
font-kit = "=0.14.3"
pathfinder_geometry = "=0.5.1"
thiserror = "=2.0.21"
