[package]
name = "group_bench"
version = "0.1.0"
edition = "2021"
publish = false

[dependencies]
dalek-ff-group = "=0.4.6"
k256 = { version = "=0.13.4", default-features = false, features = ["arithmetic"] }
pasta_curves = "=0.5.2"
