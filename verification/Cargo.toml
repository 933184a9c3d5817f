[package]
name = "gpu_quantum_annealing"
version = "0.1.0"
edition = "2021"
publish = false

[dependencies]
cudarc = { version = "=0.18.2", features = ["cuda-12080"] }
thiserror = "=2.0.21"
bytemuck = "=1.25.2"
