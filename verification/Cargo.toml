[package]
name = "gvizor_edge"
version = "0.1.0"
edition = "2021"
publish = false

[dependencies]
egui = { version = "0.27", default-features = false, features = ["serde"] }
petgraph = "0.6"
serde = { version = "1", features = ["derive"] }
