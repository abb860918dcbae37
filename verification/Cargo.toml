[package]
name = "argloc"
version = "0.1.0"
edition = "2021"
publish = false

[dependencies]
nalgebra = "=0.33.3"
num-traits = "=0.2.19"
quad-rs = "=0.5.0"
quadtree_core = "=0.4.0"
thiserror = "=2.0.21"

[dev-dependencies]
num-complex = "=0.4.6"
approx = "=0.5.1"
