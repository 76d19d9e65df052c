[package]
name = "rclrust_msg_gen"
version = "0.1.0"
edition = "2021"
publish = false

[dependencies]
anyhow = "=1.0.104"
cc = "=1.10.0"
convert_case = "=0.6.0"
futures = "0.3"
itertools = "=0.10.5"
newline-converter = "=0.3.0"
path_macro = "=1.0.0"
syn = { version = "=1.0.109", features = ["full"] }
