[package]
name = "voxel_core"
version = "0.1.0"
edition = "2021"
publish = false

[dependencies]
bit-vec = "0.6"
rand = "0.7"
gl = "0.14"
glfw = "*"
log = "0.4"
pretty_env_logger = "*"
nalgebra = "*"
nalgebra-glm = "*"
specs = "*"
