[package]
name = "torus_trooper"
version = "0.1.0"
edition = "2021"
publish = false

[dependencies]
rand = "0.6"
rand_core = "0.4"
rle_vec = "*"
serde = { version = "1", features = ["derive"] }
serde_json = "1"
preferences = "*"
structopt = "0.3"
diff = "*"
lazy_static = "1"
